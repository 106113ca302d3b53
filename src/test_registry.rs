use vstd::prelude::*;

verus! {

/// Most tests the registry holds.
pub const MAX_TESTS: usize = 128;

/// A named test.
#[derive(Clone, Copy)]
pub struct TestEntry<F> {
    pub name: &'static str,
    pub func: F,
}

/// The kernel's in-memory list of tests, filled by an initialisation
/// routine and run in order of registration.
pub struct TestRegistry<F> {
    entries: Vec<TestEntry<F>>,
}

impl<F> TestRegistry<F> {
    /// The registered tests, in order.
    pub closed spec fn tests(&self) -> Seq<TestEntry<F>> {
        self.entries@
    }

    pub fn new() -> (r: Self)
        ensures
            r.tests().len() == 0,
    {
        TestRegistry { entries: Vec::new() }
    }

    /// Appends a test; a full registry refuses it and stays as it is.
    pub fn register_test(&mut self, name: &'static str, func: F) -> (r: bool)
        ensures
            r == (old(self).tests().len() < MAX_TESTS),
            r ==> final(self).tests() == old(self).tests().push(TestEntry { name, func }),
            !r ==> final(self).tests() == old(self).tests(),
    {
        if self.entries.len() < MAX_TESTS {
            self.entries.push(TestEntry { name, func });
            true
        } else {
            false
        }
    }

    /// Number of registered tests.
    pub fn len(&self) -> (r: usize)
        ensures
            r == self.tests().len(),
    {
        self.entries.len()
    }

    /// The test registered in position `i`.
    pub fn get(&self, i: usize) -> (r: &TestEntry<F>)
        requires
            i < self.tests().len(),
        ensures
            *r == self.tests()[i as int],
    {
        &self.entries[i]
    }
}

} // verus!
