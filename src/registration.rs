use vstd::prelude::*;
use vstd::string::*;

verus! {

/// What a registered test is known by: its suite, its name, and the fixture
/// type that the harness hands to its body.
pub type TestKey = (Seq<char>, Seq<char>, Seq<char>);

/// A test case as declared to the harness.
#[derive(Clone, Debug, PartialEq, Eq)]
pub struct TestRegistration {
    pub suite: String,
    pub name: String,
    pub fixture: String,
}

impl View for TestRegistration {
    type V = TestKey;

    open spec fn view(&self) -> TestKey {
        (self.suite@, self.name@, self.fixture@)
    }
}

/// Whether `entries` already declares a test of this suite and name.
pub open spec fn declares(entries: Seq<TestKey>, suite: Seq<char>, name: Seq<char>) -> bool {
    exists|i: int| 0 <= i < entries.len() && (#[trigger] entries[i]).0 == suite && entries[i].1 == name
}

/// No two entries have the same suite and name.
pub open spec fn distinct_tests(entries: Seq<TestKey>) -> bool {
    forall|i: int, j: int|
        0 <= i < j < entries.len() ==> !((#[trigger] entries[i]).0 == (#[trigger] entries[j]).0
            && entries[i].1 == entries[j].1)
}

/// Why the harness refused a registration.
#[derive(Clone, Copy, Debug, PartialEq, Eq, Structural)]
pub enum RegistrationError {
    /// A test of that suite and name is already registered.
    Duplicate,
}

/// The entries and the result after registering `t` in `entries`.
pub open spec fn register_spec(entries: Seq<TestKey>, t: TestKey) -> (Seq<TestKey>, Result<(), RegistrationError>) {
    if declares(entries, t.0, t.1) {
        (entries, Err(RegistrationError::Duplicate))
    } else {
        (entries.push(t), Ok(()))
    }
}

/// The registration of the smoke test: suite `SmokeRustBrowserTest`, name
/// `Smoke`, bound to the `ContentBrowserTest` fixture.
pub open spec fn smoke_key() -> TestKey {
    ("SmokeRustBrowserTest"@, "Smoke"@, "ContentBrowserTest"@)
}

/// Declares the smoke test.
pub fn smoke_registration() -> (r: TestRegistration)
    ensures
        r@ == smoke_key(),
{
    TestRegistration {
        suite: String::from_str("SmokeRustBrowserTest"),
        name: String::from_str("Smoke"),
        fixture: String::from_str("ContentBrowserTest"),
    }
}

/// The tests known to the harness, in the order they were registered.
pub struct Registry {
    entries: Vec<TestRegistration>,
}

impl View for Registry {
    type V = Seq<TestKey>;

    closed spec fn view(&self) -> Seq<TestKey> {
        self.entries@.map_values(|t: TestRegistration| t@)
    }
}

impl Registry {
    pub open spec fn wf(&self) -> bool {
        distinct_tests(self@)
    }

    /// A registry that knows no test.
    pub fn new() -> (r: Registry)
        ensures
            r.wf(),
            r@ == Seq::<TestKey>::empty(),
    {
        let r = Registry { entries: Vec::new() };
        assert(r@ =~= Seq::<TestKey>::empty());
        r
    }

    /// Number of registered tests.
    pub fn len(&self) -> (n: usize)
        ensures
            n == self@.len(),
    {
        self.entries.len()
    }

    /// Whether a test of this suite and name is registered.
    pub fn contains(&self, suite: &String, name: &String) -> (b: bool)
        ensures
            b == declares(self@, suite@, name@),
    {
        let mut i: usize = 0;
        while i < self.entries.len()
            invariant
                i <= self.entries@.len(),
                self@ == self.entries@.map_values(|t: TestRegistration| t@),
                forall|k: int| 0 <= k < i ==> !((#[trigger] self@[k]).0 == suite@ && self@[k].1 == name@),
            decreases self.entries@.len() - i,
        {
            if self.entries[i].suite == *suite && self.entries[i].name == *name {
                assert(self@[i as int].0 == suite@ && self@[i as int].1 == name@);
                return true;
            }
            i = i + 1;
        }
        false
    }

    /// Registers `t`, refused when a test of the same suite and name is
    /// already registered.
    pub fn register(&mut self, t: TestRegistration) -> (r: Result<(), RegistrationError>)
        requires
            old(self).wf(),
        ensures
            final(self).wf(),
            (final(self)@, r) == register_spec(old(self)@, t@),
    {
        let known = self.contains(&t.suite, &t.name);
        if known {
            return Err(RegistrationError::Duplicate);
        }
        let ghost before = self@;
        let ghost key = t@;
        self.entries.push(t);
        assert(self@ =~= before.push(key));
        Ok(())
    }
}

/// Registering the smoke test in a registry that does not hold it succeeds
/// and leaves exactly one entry of that suite and name; registering it once
/// more is refused and changes nothing.
pub proof fn lemma_smoke_registers_once(entries: Seq<TestKey>)
    requires
        distinct_tests(entries),
        !declares(entries, smoke_key().0, smoke_key().1),
    ensures
        ({
            let (once, first) = register_spec(entries, smoke_key());
            let (twice, second) = register_spec(once, smoke_key());
            &&& first == Ok::<(), RegistrationError>(())
            &&& distinct_tests(once)
            &&& once.last() == smoke_key()
            &&& forall|i: int|
                0 <= i < once.len() && (#[trigger] once[i]).0 == smoke_key().0 && once[i].1
                    == smoke_key().1 ==> i == once.len() - 1
            &&& second == Err::<(), RegistrationError>(RegistrationError::Duplicate)
            &&& twice == once
        }),
{
    let once = entries.push(smoke_key());
    assert(once[once.len() - 1] == smoke_key());
    assert(declares(once, smoke_key().0, smoke_key().1));
}

} // verus!
