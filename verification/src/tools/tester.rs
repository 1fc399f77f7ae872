use vstd::prelude::*;

verus! {

/// Which parts of the toolkit a test run exercises.
#[derive(Clone, Debug)]
pub struct TestOptions {
    packages: Option<Vec<String>>,
    disable_deprecation_rewrites: bool,
    disable_tests: bool,
    skip_packages: Option<Vec<String>>,
}

impl TestOptions {
    pub closed spec fn packages_spec(&self) -> Option<Seq<Seq<char>>> {
        match self.packages {
            Some(p) => Some(p@.map_values(|s: String| s@)),
            None => None,
        }
    }

    pub closed spec fn disable_deprecation_rewrites_spec(&self) -> bool {
        self.disable_deprecation_rewrites
    }

    pub closed spec fn disable_tests_spec(&self) -> bool {
        self.disable_tests
    }

    pub closed spec fn skip_packages_spec(&self) -> Option<Seq<Seq<char>>> {
        match self.skip_packages {
            Some(p) => Some(p@.map_values(|s: String| s@)),
            None => None,
        }
    }

    pub fn new(
        packages: Option<Vec<String>>,
        disable_deprecation_rewrites: bool,
        disable_tests: bool,
        skip_packages: Option<Vec<String>>,
    ) -> (r: TestOptions)
        ensures
            r.packages_spec() == (match packages {
                Some(p) => Some(p@.map_values(|s: String| s@)),
                None => None::<Seq<Seq<char>>>,
            }),
            r.disable_deprecation_rewrites_spec() == disable_deprecation_rewrites,
            r.disable_tests_spec() == disable_tests,
            r.skip_packages_spec() == (match skip_packages {
                Some(p) => Some(p@.map_values(|s: String| s@)),
                None => None::<Seq<Seq<char>>>,
            }),
    {
        TestOptions { packages, disable_deprecation_rewrites, disable_tests, skip_packages }
    }

    pub fn packages(&self) -> (r: &Option<Vec<String>>)
        ensures
            match r {
                Some(p) => self.packages_spec() == Some(p@.map_values(|s: String| s@)),
                None => self.packages_spec() is None,
            },
    {
        &self.packages
    }

    pub fn disable_deprecation_rewrites(&self) -> (r: bool)
        ensures
            r == self.disable_deprecation_rewrites_spec(),
    {
        self.disable_deprecation_rewrites
    }

    pub fn disable_tests(&self) -> (r: bool)
        ensures
            r == self.disable_tests_spec(),
    {
        self.disable_tests
    }

    pub fn skip_packages(&self) -> (r: &Option<Vec<String>>)
        ensures
            match r {
                Some(p) => self.skip_packages_spec() == Some(p@.map_values(|s: String| s@)),
                None => self.skip_packages_spec() is None,
            },
    {
        &self.skip_packages
    }

    /// The skip-packages argument handed to the interpreter: the names,
    /// comma-separated, inside quotes; empty when none are skipped.
    pub fn skip_packages_argument(&self) -> (r: String)
        ensures
            match self.skip_packages_spec() {
                Some(names) => r@ == "--skip-packages=\""@ + comma_joined(names) + "\""@,
                None => r@ == Seq::<char>::empty(),
            },
    {
        match &self.skip_packages {
            Some(names) => {
                let mut r = "--skip-packages=\"".to_owned();
                let joined = join_comma(names);
                r.append(joined.as_str());
                r.append("\"");
                proof {
                    assert(r@ =~= "--skip-packages=\""@ + comma_joined(
                        names@.map_values(|s: String| s@),
                    ) + "\""@);
                }
                r
            },
            None => {
                let r = String::new();
                proof {
                    assert(r@ =~= Seq::<char>::empty());
                }
                r
            },
        }
    }
}

/// Names chained into one text, a comma between each pair.
pub open spec fn comma_joined(s: Seq<Seq<char>>) -> Seq<char>
    decreases s.len(),
{
    if s.len() == 0 {
        Seq::<char>::empty()
    } else if s.len() == 1 {
        s[0]
    } else {
        comma_joined(s.drop_last()) + seq![','] + s.last()
    }
}

fn join_comma(names: &Vec<String>) -> (r: String)
    ensures
        r@ == comma_joined(names@.map_values(|s: String| s@)),
{
    let ghost views = names@.map_values(|s: String| s@);
    let n = names.len();
    if n == 0 {
        let r = String::new();
        proof {
            assert(r@ =~= Seq::<char>::empty());
        }
        return r;
    }
    let mut r = names[0].clone();
    proof {
        assert(views.subrange(0, 1).len() == 1);
        assert(views.subrange(0, 1)[0] == views[0]);
    }
    let mut i: usize = 1;
    while i < n
        invariant
            1 <= i <= n,
            n == views.len(),
            views == names@.map_values(|s: String| s@),
            r@ == comma_joined(views.subrange(0, i as int)),
        decreases n - i,
    {
        r.append(",");
        r.append(names[i].as_str());
        proof {
            reveal_strlit(",");
            assert(","@ =~= seq![',']);
            assert(views.subrange(0, i + 1).drop_last() =~= views.subrange(0, i as int));
            assert(views.subrange(0, i + 1).last() == views[i as int]);
            assert(r@ =~= comma_joined(views.subrange(0, i + 1)));
        }
        i = i + 1;
    }
    proof {
        assert(views.subrange(0, n as int) =~= views);
    }
    r
}

/// Runs the toolkit's examples, tests, slides and reports.
pub struct Tester;

impl Tester {
    pub fn new() -> (r: Tester) {
        Tester {  }
    }
}

} // verus!
