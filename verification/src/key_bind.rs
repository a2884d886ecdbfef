//! The binding resolver: key chords, the ordered binding list, and the scan
//! that resolves a chord to the first action bound to it.

use vstd::prelude::*;

use crate::player::Action;

verus! {

/// The modifier keys held down as part of a chord.
#[derive(Clone, Copy, Debug, PartialEq, Eq, Structural)]
pub struct Modifiers {
    pub ctrl: bool,
    pub alt: bool,
    pub shift: bool,
    pub logo: bool,
}

/// The modifier set of a chord with no modifier held.
pub open spec fn no_modifiers() -> Modifiers {
    Modifiers { ctrl: false, alt: false, shift: false, logo: false }
}

impl Modifiers {
    /// A chord with no modifier held.
    pub fn empty() -> (r: Modifiers)
        ensures
            r == no_modifiers(),
    {
        Modifiers { ctrl: false, alt: false, shift: false, logo: false }
    }
}

/// The primary key of a chord.
#[derive(Clone, Copy, Debug, PartialEq, Eq, Structural)]
pub enum Key {
    LeftArrow,
    RightArrow,
    Space,
    Character(char),
}

/// A bindable chord: a full modifier set plus a primary key.
#[derive(Clone, Copy, Debug, PartialEq, Eq, Structural)]
pub struct KeyBind {
    pub modifiers: Modifiers,
    pub key: Key,
}

impl KeyBind {
    /// Exact matching: the event's full modifier set must equal the bound
    /// one, and the keys must be equal. A chord with an extra modifier does
    /// not match (no subset matching).
    pub open spec fn spec_matches(self, modifiers: Modifiers, key: Key) -> bool {
        self.modifiers == modifiers && self.key == key
    }

    pub fn matches(&self, modifiers: Modifiers, key: &Key) -> (r: bool)
        ensures
            r == self.spec_matches(modifiers, *key),
    {
        self.modifiers == modifiers && self.key == *key
    }
}

/// What an ordered binding list resolves a chord to: the action of the first
/// entry whose chord matches the event exactly, or nothing.
pub open spec fn spec_resolve(
    binds: Seq<(KeyBind, Action)>,
    modifiers: Modifiers,
    key: Key,
) -> Option<Action>
    decreases binds.len(),
{
    if binds.len() == 0 {
        None
    } else if binds[0].0.spec_matches(modifiers, key) {
        Some(binds[0].1)
    } else {
        spec_resolve(binds.drop_first(), modifiers, key)
    }
}

/// Scans the bindings in declaration order and returns the action of the
/// first entry whose chord matches, or nothing when no entry matches (an
/// empty list therefore always resolves to nothing).
pub fn resolve(binds: &Vec<(KeyBind, Action)>, modifiers: Modifiers, key: &Key) -> (r: Option<
    Action,
>)
    ensures
        r == spec_resolve(binds@, modifiers, *key),
{
    let len = binds.len();
    proof {
        assert(binds@.subrange(0, len as int) =~= binds@);
    }
    let mut i: usize = 0;
    while i < len
        invariant
            i <= len,
            len == binds@.len(),
            spec_resolve(binds@, modifiers, *key) == spec_resolve(
                binds@.subrange(i as int, len as int),
                modifiers,
                *key,
            ),
        decreases len - i,
    {
        let entry = &binds[i];
        proof {
            assert(binds@.subrange(i as int, len as int)[0] == binds@[i as int]);
        }
        if entry.0.matches(modifiers, key) {
            return Some(entry.1);
        }
        proof {
            assert(binds@.subrange(i as int, len as int).drop_first() =~= binds@.subrange(
                i as int + 1,
                len as int,
            ));
        }
        i = i + 1;
    }
    proof {
        assert(binds@.subrange(len as int, len as int) =~= Seq::<(KeyBind, Action)>::empty());
    }
    None
}

/// A chord that no entry of the binding list binds resolves to nothing.
pub proof fn lemma_resolve_unbound(binds: Seq<(KeyBind, Action)>, modifiers: Modifiers, key: Key)
    requires
        forall|j: int| 0 <= j < binds.len() ==> !(#[trigger] binds[j]).0.spec_matches(
            modifiers,
            key,
        ),
    ensures
        spec_resolve(binds, modifiers, key) is None,
    decreases binds.len(),
{
    if binds.len() > 0 {
        assert forall|j: int| 0 <= j < binds.drop_first().len() implies !(#[trigger] binds.drop_first()[j]).0.spec_matches(modifiers, key) by {
            assert(binds.drop_first()[j] == binds[j + 1]);
        }
        lemma_resolve_unbound(binds.drop_first(), modifiers, key);
    }
}

/// The exact chord of an entry resolves to that entry's action, provided no
/// earlier entry binds the same chord: first match wins, so declaration order
/// breaks ties among duplicate chords.
pub proof fn lemma_resolve_bound(binds: Seq<(KeyBind, Action)>, i: int)
    requires
        0 <= i < binds.len(),
        forall|j: int| 0 <= j < i ==> !(#[trigger] binds[j]).0.spec_matches(
            binds[i].0.modifiers,
            binds[i].0.key,
        ),
    ensures
        spec_resolve(binds, binds[i].0.modifiers, binds[i].0.key) == Some(binds[i].1),
    decreases i,
{
    if i > 0 {
        assert forall|j: int| 0 <= j < i - 1 implies !(#[trigger] binds.drop_first()[j]).0.spec_matches(binds[i].0.modifiers, binds[i].0.key) by {
            assert(binds.drop_first()[j] == binds[j + 1]);
        }
        assert(binds.drop_first()[i - 1] == binds[i]);
        lemma_resolve_bound(binds.drop_first(), i - 1);
    }
}

/// A resolved action always comes from an entry whose chord is exactly the
/// queried chord and which no earlier entry pre-empts. In particular, a chord
/// that differs from a binding's chord in any modifier never yields that
/// binding's action unless another entry, of equal or earlier precedence,
/// binds the differing chord to the same action itself.
pub proof fn lemma_resolve_is_first_match(
    binds: Seq<(KeyBind, Action)>,
    modifiers: Modifiers,
    key: Key,
    action: Action,
)
    requires
        spec_resolve(binds, modifiers, key) == Some(action),
    ensures
        exists|i: int|
            {
                &&& 0 <= i < binds.len()
                &&& (#[trigger] binds[i]).0.spec_matches(modifiers, key)
                &&& binds[i].1 == action
                &&& forall|j: int| 0 <= j < i ==> !(#[trigger] binds[j]).0.spec_matches(
                    modifiers,
                    key,
                )
            },
    decreases binds.len(),
{
    if binds[0].0.spec_matches(modifiers, key) {
        assert((#[trigger] binds[0]).0.spec_matches(modifiers, key) && binds[0].1 == action);
    } else {
        lemma_resolve_is_first_match(binds.drop_first(), modifiers, key, action);
        let w = choose|i: int|
            {
                &&& 0 <= i < binds.drop_first().len()
                &&& (#[trigger] binds.drop_first()[i]).0.spec_matches(modifiers, key)
                &&& binds.drop_first()[i].1 == action
                &&& forall|j: int| 0 <= j < i ==> !(#[trigger] binds.drop_first()[j]).0.spec_matches(
                    modifiers,
                    key,
                )
            };
        assert(binds.drop_first()[w] == binds[w + 1]);
        assert forall|j: int| 0 <= j < w + 1 implies !(#[trigger] binds[j]).0.spec_matches(
            modifiers,
            key,
        ) by {
            if j > 0 {
                assert(binds.drop_first()[j - 1] == binds[j]);
            }
        }
        assert((#[trigger] binds[w + 1]).0.spec_matches(modifiers, key) && binds[w + 1].1
            == action && forall|j: int| 0 <= j < w + 1 ==> !(#[trigger] binds[j]).0.spec_matches(
            modifiers,
            key,
        ));
    }
}

/// The built-in bindings, in declaration order.
pub open spec fn default_binds() -> Seq<(KeyBind, Action)> {
    seq![
        (KeyBind { modifiers: no_modifiers(), key: Key::LeftArrow }, Action::SeekBackward),
        (KeyBind { modifiers: no_modifiers(), key: Key::RightArrow }, Action::SeekForward),
    ]
}

/// The built-in bindings: the plain left arrow seeks backward, the plain
/// right arrow seeks forward.
pub fn key_binds() -> (r: Vec<(KeyBind, Action)>)
    ensures
        r@ == default_binds(),
{
    let mut binds: Vec<(KeyBind, Action)> = Vec::new();
    binds.push((KeyBind { modifiers: Modifiers::empty(), key: Key::LeftArrow }, Action::SeekBackward));
    binds.push((KeyBind { modifiers: Modifiers::empty(), key: Key::RightArrow }, Action::SeekForward));
    proof {
        assert(binds@ =~= default_binds());
    }
    binds
}

} // verus!
