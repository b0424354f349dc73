//! Which scenes this program manages, and which groups must recall a managed
//! scene after its stored states were rewritten.
use vstd::prelude::*;
use crate::scene::{Group, Scene};

verus! {

/// What `str::to_lowercase` makes of a string.
pub uninterp spec fn lower_of(s: Seq<char>) -> Seq<char>;

/// Relies on `str::to_lowercase`: the lower-case form of the characters, which
/// depends on the characters alone.
#[verifier::external_body]
fn lowercase(s: &str) -> (r: String)
    ensures
        r@ == lower_of(s@),
{
    s.to_lowercase()
}

/// The marker that a managed scene's name holds, in lower case.
pub open spec fn marker() -> Seq<char> {
    seq!['d', 'a', 'y', 's', 'h', 'i', 'f', 't']
}

/// `s` holds the marker at position `i`.
pub open spec fn marker_at(s: Seq<char>, i: int) -> bool {
    0 <= i && i + marker().len() <= s.len() && s.subrange(i, i + marker().len()) =~= marker()
}

/// `s` holds the marker somewhere.
pub open spec fn contains_marker(s: Seq<char>) -> bool {
    exists|i: int| marker_at(s, i)
}

/// A scene is managed when its name, in lower case, holds the marker, and the
/// bridge may not delete it.
pub open spec fn managed(scene: &Scene) -> bool {
    contains_marker(lower_of(scene.name@)) && !scene.recycle
}

/// Whether an already lower-cased name holds the marker.
pub fn has_marker(lowered: &str) -> (r: bool)
    ensures
        r == contains_marker(lowered@),
{
    let m = "dayshift";
    proof {
        reveal_strlit("dayshift");
        assert(m@ =~= marker());
    }
    let n = lowered.unicode_len();
    let mlen = m.unicode_len();
    if n < mlen {
        assert forall|i: int| !marker_at(lowered@, i) by {}
        return false;
    }
    let mut i: usize = 0;
    while i <= n - mlen
        invariant
            n == lowered@.len(),
            mlen == marker().len(),
            m@ == marker(),
            mlen <= n,
            i <= n - mlen + 1,
            forall|k: int| 0 <= k < i ==> !marker_at(lowered@, k),
        decreases n - i,
    {
        let mut j: usize = 0;
        let mut same = true;
        while j < mlen && same
            invariant
                n == lowered@.len(),
                mlen == marker().len(),
                m@ == marker(),
                i + mlen <= n,
                j <= mlen,
                same ==> forall|k: int| 0 <= k < j ==> lowered@[i + k] == marker()[k],
                !same ==> !marker_at(lowered@, i as int),
            decreases mlen - j,
        {
            if lowered.get_char(i + j) != m.get_char(j) {
                same = false;
                j = mlen;
                proof {
                    if marker_at(lowered@, i as int) {
                        assert(lowered@.subrange(i as int, i + mlen)[j as int] == lowered@[i + j]);
                    }
                }
            } else {
                j = j + 1;
            }
        }
        if same {
            assert(lowered@.subrange(i as int, i + mlen) =~= marker());
            assert(marker_at(lowered@, i as int));
            return true;
        }
        i = i + 1;
    }
    false
}

/// Whether this program manages a scene.
pub fn is_managed(scene: &Scene) -> (r: bool)
    ensures
        r == managed(scene),
{
    let lowered = lowercase(scene.name.as_str());
    has_marker(lowered.as_str()) && !scene.recycle
}

/// The positions below `n` that satisfy `p`, in increasing order.
pub open spec fn positions_where(n: nat, p: spec_fn(int) -> bool) -> Seq<usize>
    decreases n,
{
    if n == 0 {
        seq![]
    } else {
        let s = positions_where((n - 1) as nat, p);
        if p(n - 1) {
            s.push((n - 1) as usize)
        } else {
            s
        }
    }
}

/// A position is in `positions_where(n, p)` exactly when it is below `n` and
/// satisfies `p`.
pub proof fn lemma_positions_where(n: nat, p: spec_fn(int) -> bool)
    requires
        n <= usize::MAX + 1,
    ensures
        forall|k: int|
            0 <= k < positions_where(n, p).len() ==> positions_where(n, p)[k] < n && p(
                positions_where(n, p)[k] as int,
            ),
        forall|i: int| 0 <= i < n && #[trigger] p(i) ==> positions_where(n, p).contains(i as usize),
    decreases n,
{
    if n > 0 {
        lemma_positions_where((n - 1) as nat, p);
        let s = positions_where((n - 1) as nat, p);
        if p(n - 1) {
            assert forall|i: int| 0 <= i < n && #[trigger] p(i) implies positions_where(n, p).contains(
                i as usize,
            ) by {
                if i < n - 1 {
                    let k = choose|k: int| 0 <= k < s.len() && s[k] == i as usize;
                    assert(s.push((n - 1) as usize)[k] == i as usize);
                } else {
                    assert(s.push((n - 1) as usize)[s.len() as int] == i as usize);
                }
            }
        }
    }
}

/// The positions of the scenes that this program manages, in order.
pub fn update_scenes(scenes: &Vec<Scene>) -> (r: Vec<usize>)
    ensures
        r@ == managed_positions(scenes@),
{
    let ghost p = |i: int| managed(&scenes@[i]);
    let mut r: Vec<usize> = Vec::new();
    let mut i: usize = 0;
    while i < scenes.len()
        invariant
            i <= scenes@.len(),
            p == (|i: int| managed(&scenes@[i])),
            r@ == positions_where(i as nat, p),
        decreases scenes@.len() - i,
    {
        if is_managed(&scenes[i]) {
            r.push(i);
        }
        i = i + 1;
    }
    r
}

/// The positions of the managed scenes among `scenes`, in order.
pub open spec fn managed_positions(scenes: Seq<Scene>) -> Seq<usize> {
    positions_where(scenes.len(), |i: int| managed(&scenes[i]))
}

/// Reconciliation touches only managed scenes: every scene that
/// `update_scenes` selects holds the marker in its lower-cased name and may
/// not be deleted by the bridge, and every such scene is selected.
pub proof fn lemma_only_managed_scenes_touched(scenes: Seq<Scene>)
    requires
        scenes.len() <= usize::MAX,
    ensures
        forall|k: int|
            0 <= k < managed_positions(scenes).len() ==> {
                let s = scenes[#[trigger] managed_positions(scenes)[k] as int];
                &&& contains_marker(lower_of(s.name@))
                &&& !s.recycle
            },
        forall|i: int|
            0 <= i < scenes.len() && #[trigger] managed(&scenes[i]) ==> managed_positions(
                scenes,
            ).contains(i as usize),
{
    let p = |i: int| managed(&scenes[i]);
    lemma_positions_where(scenes.len(), p);
    assert forall|i: int| 0 <= i < scenes.len() && #[trigger] managed(&scenes[i]) implies managed_positions(
        scenes,
    ).contains(i as usize) by {
        assert(p(i));
    }
}

/// Whether two member lists are the same.
pub fn same_lights(a: &Vec<usize>, b: &Vec<usize>) -> (r: bool)
    ensures
        r == (a@ == b@),
{
    if a.len() != b.len() {
        return false;
    }
    let mut i: usize = 0;
    while i < a.len()
        invariant
            a@.len() == b@.len(),
            i <= a@.len(),
            forall|k: int| 0 <= k < i ==> a@[k] == b@[k],
        decreases a@.len() - i,
    {
        if a[i] != b[i] {
            return false;
        }
        i = i + 1;
    }
    assert(a@ =~= b@);
    true
}

/// A group recalls a scene with members `lights` when it has exactly those
/// members and the bridge may not delete it.
pub open spec fn recalls(lights: Seq<usize>, group: &Group) -> bool {
    group.lights@ == lights && group.recycle != Some(true)
}

/// The positions of the groups that must recall a scene with members `lights`.
pub fn groups_to_recall(lights: &Vec<usize>, groups: &Vec<Group>) -> (r: Vec<usize>)
    ensures
        r@ == positions_where(groups@.len(), |i: int| recalls(lights@, &groups@[i])),
{
    let ghost p = |i: int| recalls(lights@, &groups@[i]);
    let mut r: Vec<usize> = Vec::new();
    let mut i: usize = 0;
    while i < groups.len()
        invariant
            i <= groups@.len(),
            p == (|i: int| recalls(lights@, &groups@[i])),
            r@ == positions_where(i as nat, p),
        decreases groups@.len() - i,
    {
        let deletable = match groups[i].recycle {
            Some(d) => d,
            None => false,
        };
        if same_lights(&groups[i].lights, lights) && !deletable {
            r.push(i);
        }
        i = i + 1;
    }
    r
}

} // verus!
