//! Properties of the care and breeding rules that hold over all cats and all
//! sequences of actions.
use vstd::prelude::*;
use crate::cat::{
    can_mate, fed, played, refusal_text, sleep_toggled, ticked, CatInfo,
};

verus! {

/// One action on a cat, as the caller of its methods performs it.
pub enum Care {
    Feed { weight: u32, health: u32 },
    Play { weight: u32, health: u32 },
    ToggleSleep { health: u32 },
    Update { now: i64 },
}

/// The cat after one action.
pub open spec fn after_care(c: CatInfo, a: Care) -> CatInfo {
    match a {
        Care::Feed { weight, health } => fed(c, weight, health),
        Care::Play { weight, health } => played(c, weight, health),
        Care::ToggleSleep { health } => sleep_toggled(c, health),
        Care::Update { now } => ticked(c, now as int).0,
    }
}

/// The cat after a sequence of actions, performed in order.
pub open spec fn after_all(c: CatInfo, acts: Seq<Care>) -> CatInfo
    decreases acts.len(),
{
    if acts.len() == 0 {
        c
    } else {
        after_care(after_all(c, acts.drop_last()), acts.last())
    }
}

/// `part` occurs in `text` as a contiguous run.
pub open spec fn mentions(text: Seq<char>, part: Seq<char>) -> bool {
    exists|i: int| 0 <= i && i + part.len() <= text.len()
        && #[trigger] text.subrange(i, i + part.len()) == part
}

/// Health and food never go below zero: starting from a cat whose health and food are
/// not negative, any sequence of feeding, play, sleep and updates keeps them so.
pub proof fn lemma_vitals_never_negative(c: CatInfo, acts: Seq<Care>)
    requires
        c.wf(),
    ensures
        after_all(c, acts).wf(),
    decreases acts.len(),
{
    if acts.len() > 0 {
        lemma_vitals_never_negative(c, acts.drop_last());
    }
}

/// A refused mating names every broken condition: two cats of the same gender are
/// refused with "Same Sexe" among the reasons, and a sleeping party is named as
/// sleeping ("- <name> sleep").
pub proof fn lemma_refusal_names_reasons(a: CatInfo, b: CatInfo)
    ensures
        a.gender == b.gender ==> !can_mate(a, b) && mentions(refusal_text(a, b), "Same Sexe"@),
        a.sleep ==> !can_mate(a, b) && mentions(refusal_text(a, b), "- "@ + a.name@ + " sleep"@),
        b.sleep ==> !can_mate(a, b) && mentions(refusal_text(a, b), "- "@ + b.name@ + " sleep"@),
{
    reveal_strlit("\n- Same Sexe");
    reveal_strlit("Same Sexe");
    reveal_strlit("\n- ");
    reveal_strlit("- ");
    let head = "\nCan't mate "@ + a.name@ + " with "@ + b.name@ + "\nbecause:"@;
    let same = if a.gender == b.gender { "\n- Same Sexe"@ } else { Seq::<char>::empty() };
    let a_part = "- "@ + a.name@ + " sleep"@;
    let b_part = "- "@ + b.name@ + " sleep"@;
    let a_sleeps = if a.sleep { "\n- "@ + a.name@ + " sleep"@ } else { Seq::<char>::empty() };
    let b_sleeps = if b.sleep { "\n- "@ + b.name@ + " sleep"@ } else { Seq::<char>::empty() };
    let text = refusal_text(a, b);
    assert(text == head + same + a_sleeps + b_sleeps);
    if a.gender == b.gender {
        let i: int = head.len() as int + 3;
        assert(same =~= "\n- "@ + "Same Sexe"@);
        assert(text.subrange(i, i + "Same Sexe"@.len()) =~= "Same Sexe"@);
    }
    if a.sleep {
        let i: int = (head + same).len() as int + 1;
        assert(a_sleeps =~= seq!['\n'] + a_part);
        assert(text.subrange(i, i + a_part.len()) =~= a_part);
    }
    if b.sleep {
        let i: int = (head + same + a_sleeps).len() as int + 1;
        assert(b_sleeps =~= seq!['\n'] + b_part);
        assert(text.subrange(i, i + b_part.len()) =~= b_part);
    }
}

} // verus!
