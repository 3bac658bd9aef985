//! Locations and assets, as far as the adapter reads them.
//!
//! A location is a path of junctions. The adapter interprets three kinds of
//! junction: one hop to the parent, one hop to a named parachain, and a general
//! key, which names a currency. Every other kind is carried as opaque bytes, so
//! that two locations are equal exactly when their paths are.

use vstd::prelude::*;

verus! {

/// Whether two byte strings hold the same bytes.
pub fn same_bytes(a: &Vec<u8>, b: &Vec<u8>) -> (same: bool)
    ensures
        same == (a@ == b@),
{
    if a.len() != b.len() {
        return false;
    }
    let mut i: usize = 0;
    while i < a.len()
        invariant
            a@.len() == b@.len(),
            i <= a@.len(),
            forall|j: int| 0 <= j < i ==> a@[j] == b@[j],
        decreases a@.len() - i,
    {
        if a[i] != b[i] {
            return false;
        }
        i += 1;
    }
    assert(a@ =~= b@);
    true
}

/// A copy of a byte string.
pub fn copy_bytes(a: &Vec<u8>) -> (copy: Vec<u8>)
    ensures
        copy@ == a@,
{
    let mut copy: Vec<u8> = Vec::with_capacity(a.len());
    let mut i: usize = 0;
    while i < a.len()
        invariant
            i <= a@.len(),
            copy@ == a@.subrange(0, i as int),
        decreases a@.len() - i,
    {
        copy.push(a[i]);
        assert(a@.subrange(0, i + 1) =~= a@.subrange(0, i as int).push(a@[i as int]));
        i += 1;
    }
    assert(a@.subrange(0, a@.len() as int) =~= a@);
    copy
}

/// One segment of a location.
#[derive(Debug, PartialEq, Eq)]
pub enum Junction {
    /// One hop towards the relay chain.
    Parent,
    /// One hop to the parachain with this id.
    Parachain { id: u32 },
    /// An application-defined key; the adapter reads it as a currency key.
    GeneralKey(Vec<u8>),
    /// A segment of any other kind, held as the bytes that identify it.
    Other(Vec<u8>),
}

/// The mathematical value of a [`Junction`].
pub enum JunctionView {
    Parent,
    Parachain { id: u32 },
    GeneralKey(Seq<u8>),
    Other(Seq<u8>),
}

impl View for Junction {
    type V = JunctionView;

    open spec fn view(&self) -> JunctionView {
        match self {
            Junction::Parent => JunctionView::Parent,
            Junction::Parachain { id } => JunctionView::Parachain { id: *id },
            Junction::GeneralKey(key) => JunctionView::GeneralKey(key@),
            Junction::Other(bytes) => JunctionView::Other(bytes@),
        }
    }
}

impl Clone for Junction {
    fn clone(&self) -> (copy: Self)
        ensures
            copy@ == self@,
    {
        match self {
            Junction::Parent => Junction::Parent,
            Junction::Parachain { id } => Junction::Parachain { id: *id },
            Junction::GeneralKey(key) => Junction::GeneralKey(copy_bytes(key)),
            Junction::Other(bytes) => Junction::Other(copy_bytes(bytes)),
        }
    }
}

impl Junction {
    /// Whether two junctions are the same segment.
    pub fn same(&self, other: &Junction) -> (same: bool)
        ensures
            same == (self@ == other@),
    {
        match (self, other) {
            (Junction::Parent, Junction::Parent) => true,
            (Junction::Parachain { id: a }, Junction::Parachain { id: b }) => *a == *b,
            (Junction::GeneralKey(a), Junction::GeneralKey(b)) => same_bytes(a, b),
            (Junction::Other(a), Junction::Other(b)) => same_bytes(a, b),
            _ => false,
        }
    }
}

/// The path of a location, segment by segment.
pub open spec fn path_of(junctions: Seq<Junction>) -> Seq<JunctionView> {
    Seq::new(junctions.len(), |i: int| junctions[i]@)
}

/// A location: an ordered path of junctions, the empty path being here.
#[derive(Debug, PartialEq, Eq)]
pub struct MultiLocation {
    pub junctions: Vec<Junction>,
}

impl View for MultiLocation {
    type V = Seq<JunctionView>;

    open spec fn view(&self) -> Seq<JunctionView> {
        path_of(self.junctions@)
    }
}

impl Clone for MultiLocation {
    fn clone(&self) -> (copy: Self)
        ensures
            copy@ == self@,
    {
        let mut junctions: Vec<Junction> = Vec::with_capacity(self.junctions.len());
        let mut i: usize = 0;
        while i < self.junctions.len()
            invariant
                i <= self.junctions@.len(),
                junctions@.len() == i,
                forall|j: int| 0 <= j < i ==> junctions@[j]@ == self.junctions@[j]@,
            decreases self.junctions@.len() - i,
        {
            junctions.push(self.junctions[i].clone());
            i += 1;
        }
        let copy = MultiLocation { junctions };
        assert(copy@ =~= self@);
        copy
    }
}

/// The path that is one hop to the parent and nothing more.
pub open spec fn parent_path() -> Seq<JunctionView> {
    seq![JunctionView::Parent]
}

/// The path that leads to the parent and from there to the parachain `id`.
pub open spec fn sibling_path(id: u32) -> Seq<JunctionView> {
    seq![JunctionView::Parent, JunctionView::Parachain { id }]
}

/// The parachain that a path leads to, where the path is exactly two hops:
/// to the parent, and from there to that parachain.
pub open spec fn sibling_of(path: Seq<JunctionView>) -> Option<u32> {
    if path.len() == 2 && path[0] is Parent && path[1] is Parachain {
        Some(path[1]->id)
    } else {
        None
    }
}

/// A path leads to the parachain `id` by way of the parent exactly when it is
/// the two hops to it.
pub proof fn sibling_of_is_sibling_path(path: Seq<JunctionView>, id: u32)
    ensures
        sibling_of(path) == Some(id) <==> path == sibling_path(id),
{
    if sibling_of(path) == Some(id) {
        assert(path =~= sibling_path(id));
    }
}

/// The general key at the end of a path, if it ends in one.
pub open spec fn trailing_key(path: Seq<JunctionView>) -> Option<Seq<u8>> {
    if path.len() > 0 && path.last() is GeneralKey {
        Some(path.last()->GeneralKey_0)
    } else {
        None
    }
}

impl MultiLocation {
    /// Whether two locations are the same path.
    pub fn same(&self, other: &MultiLocation) -> (same: bool)
        ensures
            same == (self@ == other@),
    {
        if self.junctions.len() != other.junctions.len() {
            assert(self@.len() != other@.len());
            return false;
        }
        let mut i: usize = 0;
        while i < self.junctions.len()
            invariant
                self.junctions@.len() == other.junctions@.len(),
                i <= self.junctions@.len(),
                forall|j: int| 0 <= j < i ==> self.junctions@[j]@ == other.junctions@[j]@,
            decreases self.junctions@.len() - i,
        {
            if !self.junctions[i].same(&other.junctions[i]) {
                assert(self@[i as int] != other@[i as int]);
                return false;
            }
            i += 1;
        }
        assert(self@ =~= other@);
        true
    }

    /// The last junction of the path, if the path is not empty.
    pub fn last(&self) -> (last: Option<&Junction>)
        ensures
            self@.len() == 0 ==> last is None,
            self@.len() > 0 ==> last is Some && last->Some_0@ == self@.last(),
    {
        let n = self.junctions.len();
        if n == 0 {
            None
        } else {
            Some(&self.junctions[n - 1])
        }
    }

    /// Whether the location is the parent itself: one hop, and that hop to the parent.
    pub fn is_parent(&self) -> (parent: bool)
        ensures
            parent == (self@ == parent_path()),
    {
        if self.junctions.len() != 1 {
            assert(self@.len() != parent_path().len());
            return false;
        }
        match &self.junctions[0] {
            Junction::Parent => {
                assert(self@ =~= parent_path());
                true
            },
            _ => {
                assert(self@[0] != parent_path()[0]);
                false
            },
        }
    }

    /// The id of the parachain, where the location is the parent followed by that parachain.
    pub fn sibling_id(&self) -> (id: Option<u32>)
        ensures
            id == sibling_of(self@),
    {
        if self.junctions.len() != 2 {
            return None;
        }
        match (&self.junctions[0], &self.junctions[1]) {
            (Junction::Parent, Junction::Parachain { id }) => Some(*id),
            _ => None,
        }
    }

    /// The general key that the path ends in, if it ends in one.
    pub fn trailing_general_key(&self) -> (key: Option<&Vec<u8>>)
        ensures
            match key {
                Some(key) => trailing_key(self@) == Some(key@),
                None => trailing_key(self@) is None,
            },
    {
        match self.last() {
            Some(Junction::GeneralKey(key)) => Some(key),
            _ => None,
        }
    }
}

/// An asset, as the adapter sees it.
#[derive(Debug, PartialEq, Eq)]
pub enum MultiAsset {
    /// An amount of a fungible asset that a location identifies.
    ConcreteFungible { id: MultiLocation, amount: u128 },
    /// An asset of any other kind.
    Other,
}

/// The mathematical value of a [`MultiAsset`].
pub enum MultiAssetView {
    ConcreteFungible { id: Seq<JunctionView>, amount: u128 },
    Other,
}

impl View for MultiAsset {
    type V = MultiAssetView;

    open spec fn view(&self) -> MultiAssetView {
        match self {
            MultiAsset::ConcreteFungible { id, amount } => MultiAssetView::ConcreteFungible {
                id: id@,
                amount: *amount,
            },
            MultiAsset::Other => MultiAssetView::Other,
        }
    }
}

impl Clone for MultiAsset {
    fn clone(&self) -> (copy: Self)
        ensures
            copy@ == self@,
    {
        match self {
            MultiAsset::ConcreteFungible { id, amount } => MultiAsset::ConcreteFungible {
                id: id.clone(),
                amount: *amount,
            },
            MultiAsset::Other => MultiAsset::Other,
        }
    }
}

} // verus!
