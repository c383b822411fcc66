//! The artifact order of a scenario: every artifact an activity reads must
//! have been written before it, either earlier in the same chain or in an
//! earlier stage. Chains of one stage run in parallel, so they cannot feed
//! one another.

use vstd::prelude::*;

use crate::scheduler::{ActivityConfig, RunStage, Scenario};
use crate::types::strings_view;

verus! {

/// The global artifact names an activity writes.
pub open spec fn act_outputs(cfg: ActivityConfig) -> Seq<Seq<char>> {
    cfg.output@.map_values(|b: (String, String)| b.1@)
}

/// The global artifact names a chain writes, in order.
#[verifier::opaque]
pub open spec fn chain_outputs(chain: Seq<(String, ActivityConfig)>) -> Seq<Seq<char>>
    decreases chain.len(),
{
    if chain.len() == 0 {
        Seq::empty()
    } else {
        chain_outputs(chain.drop_last()) + act_outputs(chain.last().1)
    }
}

/// The global artifact names the chains of a stage write.
#[verifier::opaque]
pub open spec fn stage_outputs(chains: Seq<(String, Vec<(String, ActivityConfig)>)>) -> Seq<Seq<char>>
    decreases chains.len(),
{
    if chains.len() == 0 {
        Seq::empty()
    } else {
        stage_outputs(chains.drop_last()) + chain_outputs(chains.last().1@)
    }
}

/// The global artifact names a sequence of stages writes.
#[verifier::opaque]
pub open spec fn stages_outputs(stages: Seq<RunStage>) -> Seq<Seq<char>>
    decreases stages.len(),
{
    if stages.len() == 0 {
        Seq::empty()
    } else {
        stages_outputs(stages.drop_last()) + stage_outputs(stages.last().chains@)
    }
}

/// Every artifact `cfg` reads is in `avail`.
#[verifier::opaque]
pub open spec fn act_inputs_ok(avail: Seq<Seq<char>>, cfg: ActivityConfig) -> bool {
    forall|i: int| 0 <= i < cfg.input@.len() ==> avail.contains((#[trigger] cfg.input@[i]).1@)
}

/// Every activity of `chain` reads only what `before` or the chain's
/// earlier activities wrote.
#[verifier::opaque]
pub open spec fn chain_inputs_ok(before: Seq<Seq<char>>, chain: Seq<(String, ActivityConfig)>) -> bool {
    forall|a: int|
        0 <= a < chain.len() ==> act_inputs_ok(
            before + chain_outputs(chain.subrange(0, a)),
            (#[trigger] chain[a]).1,
        )
}

#[verifier::opaque]
pub open spec fn stage_inputs_ok(before: Seq<Seq<char>>, chains: Seq<(String, Vec<(String, ActivityConfig)>)>) -> bool {
    forall|c: int| 0 <= c < chains.len() ==> chain_inputs_ok(before, (#[trigger] chains[c]).1@)
}

/// The artifact order of the whole scenario holds.
pub open spec fn artifacts_ordered(s: Scenario) -> bool {
    forall|k: int|
        0 <= k < s.stages@.len() ==> stage_inputs_ok(
            stages_outputs(s.stages@.subrange(0, k)),
            (#[trigger] s.stages@[k]).chains@,
        )
}

fn contains_name(v: &Vec<String>, name: &String) -> (r: bool)
    ensures
        r == strings_view(v@).contains(name@),
{
    let mut i: usize = 0;
    while i < v.len()
        invariant
            i <= v@.len(),
            forall|j: int| 0 <= j < i ==> (#[trigger] v@[j])@ != name@,
        decreases v@.len() - i,
    {
        if v[i] == *name {
            assert(strings_view(v@)[i as int] == name@);
            return true;
        }
        i += 1;
    }
    assert(!strings_view(v@).contains(name@)) by {
        if strings_view(v@).contains(name@) {
            let j = choose|j: int| 0 <= j < strings_view(v@).len() && strings_view(v@)[j] == name@;
            assert(v@[j]@ == name@);
        }
    }
    false
}

fn push_outputs(v: &mut Vec<String>, cfg: &ActivityConfig)
    ensures
        strings_view(final(v)@) == strings_view(old(v)@) + act_outputs(*cfg),
{
    let ghost start = strings_view(v@);
    let mut i: usize = 0;
    while i < cfg.output.len()
        invariant
            i <= cfg.output@.len(),
            strings_view(v@) == start + act_outputs(*cfg).subrange(0, i as int),
        decreases cfg.output@.len() - i,
    {
        let ghost before = v@;
        v.push(cfg.output[i].1.clone());
        assert(strings_view(v@) =~= strings_view(before).push(cfg.output@[i as int].1@));
        assert(act_outputs(*cfg).subrange(0, i + 1) =~= act_outputs(*cfg).subrange(0, i as int).push(
            cfg.output@[i as int].1@,
        ));
        i += 1;
    }
    assert(act_outputs(*cfg).subrange(0, cfg.output@.len() as int) =~= act_outputs(*cfg));
}

fn push_chain_outputs(v: &mut Vec<String>, chain: &Vec<(String, ActivityConfig)>)
    ensures
        strings_view(final(v)@) == strings_view(old(v)@) + chain_outputs(chain@),
{
    let ghost start = strings_view(v@);
    let mut a: usize = 0;
    assert(start + chain_outputs(chain@.subrange(0, 0)) =~= start) by {
        reveal(chain_outputs);
    }
    while a < chain.len()
        invariant
            a <= chain@.len(),
            strings_view(v@) == start + chain_outputs(chain@.subrange(0, a as int)),
        decreases chain@.len() - a,
    {
        let ghost pre = chain_outputs(chain@.subrange(0, a as int));
        let ghost add = act_outputs(chain@[a as int].1);
        push_outputs(v, &chain[a].1);
        proof {
            let p = chain@.subrange(0, a + 1);
            assert(chain_outputs(p) == pre + add) by {
                assert(p.drop_last() =~= chain@.subrange(0, a as int));
                reveal(chain_outputs);
            }
            assert((start + pre) + add =~= start + (pre + add));
        }
        a += 1;
    }
    assert(chain@.subrange(0, chain@.len() as int) =~= chain@);
}

fn push_stage_outputs(v: &mut Vec<String>, chains: &Vec<(String, Vec<(String, ActivityConfig)>)>)
    ensures
        strings_view(final(v)@) == strings_view(old(v)@) + stage_outputs(chains@),
{
    let ghost start = strings_view(v@);
    let mut c: usize = 0;
    assert(start + stage_outputs(chains@.subrange(0, 0)) =~= start) by {
        reveal(stage_outputs);
    }
    while c < chains.len()
        invariant
            c <= chains@.len(),
            strings_view(v@) == start + stage_outputs(chains@.subrange(0, c as int)),
        decreases chains@.len() - c,
    {
        let ghost pre = stage_outputs(chains@.subrange(0, c as int));
        let ghost add = chain_outputs(chains@[c as int].1@);
        push_chain_outputs(v, &chains[c].1);
        proof {
            let p = chains@.subrange(0, c + 1);
            assert(stage_outputs(p) == pre + add) by {
                assert(p.drop_last() =~= chains@.subrange(0, c as int));
                reveal(stage_outputs);
            }
            assert((start + pre) + add =~= start + (pre + add));
        }
        c += 1;
    }
    assert(chains@.subrange(0, chains@.len() as int) =~= chains@);
}

fn act_check(avail: &Vec<String>, cfg: &ActivityConfig) -> (r: bool)
    ensures
        r == act_inputs_ok(strings_view(avail@), *cfg),
{
    let mut i: usize = 0;
    while i < cfg.input.len()
        invariant
            i <= cfg.input@.len(),
            forall|j: int| 0 <= j < i ==> strings_view(avail@).contains((#[trigger] cfg.input@[j]).1@),
        decreases cfg.input@.len() - i,
    {
        if !contains_name(avail, &cfg.input[i].1) {
            proof {
                reveal(act_inputs_ok);
            }
            return false;
        }
        i += 1;
    }
    proof {
        reveal(act_inputs_ok);
    }
    true
}

fn chain_check(before: &Vec<String>, chain: &Vec<(String, ActivityConfig)>) -> (r: bool)
    ensures
        r == chain_inputs_ok(strings_view(before@), chain@),
{
    let mut avail: Vec<String> = crate::types::copy_strings(before);
    let mut a: usize = 0;
    assert(strings_view(before@) + chain_outputs(chain@.subrange(0, 0)) =~= strings_view(before@)) by {
        reveal(chain_outputs);
    }
    while a < chain.len()
        invariant
            a <= chain@.len(),
            strings_view(avail@) == strings_view(before@) + chain_outputs(chain@.subrange(0, a as int)),
            forall|j: int|
                0 <= j < a ==> act_inputs_ok(
                    strings_view(before@) + chain_outputs(chain@.subrange(0, j)),
                    (#[trigger] chain@[j]).1,
                ),
        decreases chain@.len() - a,
    {
        if !act_check(&avail, &chain[a].1) {
            proof {
                reveal(chain_inputs_ok);
            }
            return false;
        }
        let ghost x = strings_view(before@);
        let ghost pre = chain_outputs(chain@.subrange(0, a as int));
        let ghost add = act_outputs(chain@[a as int].1);
        push_outputs(&mut avail, &chain[a].1);
        proof {
            let p = chain@.subrange(0, a + 1);
            assert(chain_outputs(p) == pre + add) by {
                assert(p.drop_last() =~= chain@.subrange(0, a as int));
                reveal(chain_outputs);
            }
            assert((x + pre) + add =~= x + (pre + add));
        }
        a += 1;
    }
    proof {
        reveal(chain_inputs_ok);
    }
    true
}

fn stage_check(before: &Vec<String>, chains: &Vec<(String, Vec<(String, ActivityConfig)>)>) -> (r: Option<usize>)
    ensures
        r is None <==> stage_inputs_ok(strings_view(before@), chains@),
        r is Some ==> r->0 < chains@.len(),
{
    let mut c: usize = 0;
    while c < chains.len()
        invariant
            c <= chains@.len(),
            forall|d: int| 0 <= d < c ==> chain_inputs_ok(strings_view(before@), (#[trigger] chains@[d]).1@),
        decreases chains@.len() - c,
    {
        if !chain_check(before, &chains[c].1) {
            proof {
                reveal(stage_inputs_ok);
            }
            return Some(c);
        }
        c += 1;
    }
    proof {
        reveal(stage_inputs_ok);
    }
    None
}

/// Checks the artifact order: every artifact an activity reads was written
/// earlier in its own chain or in an earlier stage.
pub fn check_artifact_flow(s: &Scenario) -> (r: Result<(), String>)
    ensures
        r is Ok <==> artifacts_ordered(*s),
{
    let mut earlier: Vec<String> = Vec::new();
    let mut k: usize = 0;
    assert(strings_view(earlier@) =~= stages_outputs(s.stages@.subrange(0, 0))) by {
        reveal(stages_outputs);
    }
    while k < s.stages.len()
        invariant
            k <= s.stages@.len(),
            strings_view(earlier@) == stages_outputs(s.stages@.subrange(0, k as int)),
            forall|j: int|
                0 <= j < k ==> stage_inputs_ok(
                    stages_outputs(s.stages@.subrange(0, j)),
                    (#[trigger] s.stages@[j]).chains@,
                ),
        decreases s.stages@.len() - k,
    {
        let stage = &s.stages[k];
        match stage_check(&earlier, &stage.chains) {
            Some(c) => {
                assert(!artifacts_ordered(*s)) by {
                    assert(!stage_inputs_ok(
                        stages_outputs(s.stages@.subrange(0, k as int)),
                        s.stages@[k as int].chains@,
                    ));
                }
                let mut msg = String::from_str("stage '");
                msg.append(stage.name.as_str());
                msg.append("': agent '");
                msg.append(stage.chains[c].0.as_str());
                msg.append("' reads an artifact that is not written before it");
                return Err(msg);
            },
            None => {},
        }
        let ghost pre = stages_outputs(s.stages@.subrange(0, k as int));
        push_stage_outputs(&mut earlier, &stage.chains);
        proof {
            let p = s.stages@.subrange(0, k + 1);
            assert(stages_outputs(p) == pre + stage_outputs(s.stages@[k as int].chains@)) by {
                assert(p.drop_last() =~= s.stages@.subrange(0, k as int));
                assert(p.last() == s.stages@[k as int]);
                reveal(stages_outputs);
            }
        }
        k += 1;
    }
    Ok(())
}

/// No artifact name is written twice in the scenario.
pub open spec fn outputs_unique(s: Scenario) -> bool {
    let all = stages_outputs(s.stages@);
    forall|i: int, j: int| 0 <= i < j < all.len() ==> all[i] != all[j]
}

fn all_outputs(s: &Scenario) -> (r: Vec<String>)
    ensures
        strings_view(r@) == stages_outputs(s.stages@),
{
    let mut out: Vec<String> = Vec::new();
    let mut k: usize = 0;
    assert(strings_view(out@) =~= stages_outputs(s.stages@.subrange(0, 0))) by {
        reveal(stages_outputs);
    }
    while k < s.stages.len()
        invariant
            k <= s.stages@.len(),
            strings_view(out@) == stages_outputs(s.stages@.subrange(0, k as int)),
        decreases s.stages@.len() - k,
    {
        let ghost pre = stages_outputs(s.stages@.subrange(0, k as int));
        push_stage_outputs(&mut out, &s.stages[k].chains);
        proof {
            let p = s.stages@.subrange(0, k + 1);
            assert(stages_outputs(p) == pre + stage_outputs(s.stages@[k as int].chains@)) by {
                assert(p.drop_last() =~= s.stages@.subrange(0, k as int));
                assert(p.last() == s.stages@[k as int]);
                reveal(stages_outputs);
            }
        }
        k += 1;
    }
    assert(s.stages@.subrange(0, s.stages@.len() as int) =~= s.stages@);
    out
}

/// Checks that no artifact name is written by two activities.
pub fn check_unique_outputs(s: &Scenario) -> (r: Result<(), String>)
    ensures
        r is Ok <==> outputs_unique(*s),
{
    let all = all_outputs(s);
    let ghost v = strings_view(all@);
    let mut i: usize = 0;
    while i < all.len()
        invariant
            i <= all@.len(),
            v == strings_view(all@),
            v == stages_outputs(s.stages@),
            forall|a: int, b: int| 0 <= a < i && a < b < v.len() ==> v[a] != v[b],
        decreases all@.len() - i,
    {
        let mut j: usize = i + 1;
        while j < all.len()
            invariant
                i < all@.len(),
                i + 1 <= j <= all@.len(),
                v == strings_view(all@),
                v == stages_outputs(s.stages@),
                forall|b: int| i < b < j ==> v[i as int] != v[b],
            decreases all@.len() - j,
        {
            if all[i] == all[j] {
                assert(v[i as int] == v[j as int]);
                let mut msg = String::from_str("artifact '");
                msg.append(all[i].as_str());
                msg.append("' is written more than once");
                return Err(msg);
            }
            j += 1;
        }
        i += 1;
    }
    Ok(())
}

} // verus!
