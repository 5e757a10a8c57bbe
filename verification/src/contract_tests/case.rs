//! Suites, cases, and the verdict on a list of checks.
use vstd::prelude::*;

verus! {

/// One case of a suite.
#[derive(Clone, Copy, Debug, PartialEq, Eq)]
pub struct TckCase {
    pub name: &'static str,
}

/// A suite: a name, and cases that are run in order.
#[derive(Debug, PartialEq, Eq)]
pub struct TckSuite {
    pub name: &'static str,
    pub cases: Vec<TckCase>,
}

/// The names of the cases of a suite, in order.
pub open spec fn case_names(suite: TckSuite) -> Seq<&'static str> {
    suite.cases@.map_values(|case: TckCase| case.name)
}

/// One thing that a case demands, and what is said where it does not hold.
#[derive(Clone, Copy, Debug, PartialEq, Eq)]
pub struct Check {
    pub holds: bool,
    pub message: &'static str,
}

/// The verdict on some checks: the first one that does not hold decides.
pub open spec fn verdict(checks: Seq<Check>) -> Result<(), &'static str>
    decreases checks.len(),
{
    if checks.len() == 0 {
        Ok(())
    } else if !checks[0].holds {
        Err(checks[0].message)
    } else {
        verdict(checks.skip(1))
    }
}

/// Comes to a verdict on some checks.
pub fn judge(checks: &Vec<Check>) -> (r: Result<(), &'static str>)
    ensures
        r == verdict(checks@),
{
    let mut i: usize = 0;
    proof {
        assert(checks@.skip(0) == checks@);
    }
    while i < checks.len()
        invariant
            i <= checks@.len(),
            verdict(checks@) == verdict(checks@.skip(i as int)),
        decreases checks.len() - i,
    {
        proof {
            assert(checks@.skip(i as int)[0] == checks@[i as int]);
            assert(checks@.skip(i as int).skip(1) == checks@.skip(i + 1));
        }
        if !checks[i].holds {
            return Err(checks[i].message);
        }
        i = i + 1;
    }
    Ok(())
}

/// A verdict is favourable exactly where everything holds.
pub proof fn law_favourable_means_everything_holds(checks: Seq<Check>)
    ensures
        verdict(checks) is Ok <==> forall|i: int|
            0 <= i < checks.len() ==> (#[trigger] checks[i]).holds,
    decreases checks.len(),
{
    if checks.len() > 0 {
        law_favourable_means_everything_holds(checks.skip(1));
        assert forall|i: int| 0 <= i < checks.skip(1).len() implies checks.skip(1)[i] == checks[i
            + 1] by {}
        if verdict(checks) is Ok {
            assert forall|i: int| 0 <= i < checks.len() implies (#[trigger] checks[i]).holds by {
                if i > 0 {
                    assert(checks.skip(1)[i - 1].holds);
                }
            }
        } else if forall|i: int| 0 <= i < checks.len() ==> (#[trigger] checks[i]).holds {
            assert(checks[0].holds);
            assert forall|i: int| 0 <= i < checks.skip(1).len() implies (
            #[trigger] checks.skip(1)[i]).holds by {
                assert(checks[i + 1].holds);
            }
        }
    }
}

/// Where something does not hold, the first such check says what is wrong.
pub proof fn law_the_first_failure_decides(checks: Seq<Check>, k: int)
    requires
        0 <= k < checks.len(),
        !checks[k].holds,
        forall|i: int| 0 <= i < k ==> (#[trigger] checks[i]).holds,
    ensures
        verdict(checks) == Err::<(), &'static str>(checks[k].message),
    decreases checks.len(),
{
    if k > 0 {
        let rest = checks.skip(1);
        assert(checks[0].holds);
        assert(rest[k - 1] == checks[k]);
        assert forall|i: int| 0 <= i < k - 1 implies (#[trigger] rest[i]).holds by {
            assert(rest[i] == checks[i + 1]);
        }
        law_the_first_failure_decides(rest, k - 1);
    }
}

} // verus!
