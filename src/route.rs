use vstd::prelude::*;

verus! {

/// The value of the first header named `name`, if any.
pub open spec fn header_of(headers: Seq<(String, String)>, name: Seq<char>) -> Option<String>
    decreases headers.len(),
{
    if headers.len() == 0 {
        None
    } else if headers[0].0@ == name {
        Some(headers[0].1)
    } else {
        header_of(headers.drop_first(), name)
    }
}

/// The request that filters read: its path segments, its headers, and a cursor
/// over the segments that path filters advance.
pub struct Route {
    pub segments: Vec<String>,
    pub headers: Vec<(String, String)>,
    pub index: usize,
}

impl Route {
    /// The same request with the cursor at `i`.
    pub open spec fn at(self, i: usize) -> Route {
        Route { index: i, ..self }
    }

    /// The segment under the cursor, if the path is not used up.
    pub open spec fn current(self) -> Option<String> {
        if self.index < self.segments.len() {
            Some(self.segments@[self.index as int])
        } else {
            None
        }
    }

    pub fn new(segments: Vec<String>, headers: Vec<(String, String)>) -> (r: Route)
        ensures
            r.segments == segments,
            r.headers == headers,
            r.index == 0,
    {
        Route { segments, headers, index: 0 }
    }

    /// The cursor, to restore it later.
    pub fn checkpoint(&self) -> (r: usize)
        ensures
            r == self.index,
    {
        self.index
    }

    /// Puts the cursor back at a checkpoint.
    pub fn restore(&mut self, i: usize)
        ensures
            *final(self) == old(self).at(i),
    {
        self.index = i;
    }

    pub fn segment(&self) -> (r: Option<String>)
        ensures
            r == self.current(),
    {
        if self.index < self.segments.len() {
            Some(self.segments[self.index].clone())
        } else {
            None
        }
    }

    /// Moves the cursor past the current segment.
    pub fn advance(&mut self)
        requires
            old(self).index < old(self).segments.len(),
        ensures
            *final(self) == old(self).at((old(self).index + 1) as usize),
    {
        self.index = self.index + 1;
    }

    /// The value of the first header with the given name.
    pub fn header(&self, name: &String) -> (r: Option<String>)
        ensures
            r == header_of(self.headers@, name@),
    {
        let mut i: usize = 0;
        assert(self.headers@.subrange(0, self.headers.len() as int) =~= self.headers@);
        while i < self.headers.len()
            invariant
                i <= self.headers.len(),
                header_of(self.headers@, name@) == header_of(
                    self.headers@.subrange(i as int, self.headers.len() as int),
                    name@,
                ),
            decreases self.headers.len() - i,
        {
            let ghost rest = self.headers@.subrange(i as int, self.headers.len() as int);
            assert(rest.drop_first() =~= self.headers@.subrange(
                i + 1,
                self.headers.len() as int,
            ));
            if self.headers[i].0 == *name {
                return Some(self.headers[i].1.clone());
            }
            i = i + 1;
        }
        None
    }
}

} // verus!
