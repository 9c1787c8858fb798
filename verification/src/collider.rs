use vstd::prelude::*;

verus! {

/// What a collider in the physics world stands for.  A collider carries its
/// kind as a `u128` tag in its user data.
#[derive(Clone, Copy, Debug, PartialEq, Eq, Structural)]
pub enum ColliderKind {
    Unknown,
    TrackWall,
    Racer,
}

impl ColliderKind {
    /// The tag under which a collider of this kind is stored.
    pub open spec fn spec_user_data(self) -> u128 {
        match self {
            ColliderKind::Unknown => 0,
            ColliderKind::TrackWall => 1,
            ColliderKind::Racer => 2,
        }
    }

    /// The tag to store in a collider's user data for this kind.
    pub fn user_data(&self) -> (tag: u128)
        ensures
            tag == self.spec_user_data(),
    {
        match self {
            ColliderKind::Unknown => 0,
            ColliderKind::TrackWall => 1,
            ColliderKind::Racer => 2,
        }
    }
}

/// The kind that a user-data tag denotes; every tag that is not the tag of a
/// known kind denotes `Unknown`.
pub open spec fn spec_collider_kind(user_data: u128) -> ColliderKind {
    if user_data == 1 {
        ColliderKind::TrackWall
    } else if user_data == 2 {
        ColliderKind::Racer
    } else {
        ColliderKind::Unknown
    }
}

/// Reads the kind of a collider back from its user-data tag.
pub fn collider_kind(user_data: u128) -> (kind: ColliderKind)
    ensures
        kind == spec_collider_kind(user_data),
{
    if user_data == 1 {
        ColliderKind::TrackWall
    } else if user_data == 2 {
        ColliderKind::Racer
    } else {
        ColliderKind::Unknown
    }
}

/// The tags are the kinds' positions in declaration order: `Unknown` is 0,
/// `TrackWall` is 1 and `Racer` is 2; tag 1 reads as a track wall, tag 2 as
/// a racer and every other tag as unknown.
pub proof fn lemma_collider_tags(user_data: u128)
    ensures
        ColliderKind::Unknown.spec_user_data() == 0,
        ColliderKind::TrackWall.spec_user_data() == 1,
        ColliderKind::Racer.spec_user_data() == 2,
        spec_collider_kind(1) == ColliderKind::TrackWall,
        spec_collider_kind(2) == ColliderKind::Racer,
        (user_data != 1 && user_data != 2) ==> spec_collider_kind(user_data)
            == ColliderKind::Unknown,
{
}

/// Tagging a collider with a kind and reading the tag back gives that kind.
pub proof fn lemma_collider_kind_round_trip(kind: ColliderKind)
    ensures
        spec_collider_kind(kind.spec_user_data()) == kind,
{
}

/// A tag that reads back as a known kind is exactly that kind's tag, so two
/// kinds never share a tag and a tag reads back as at most one kind.
pub proof fn lemma_known_tag_is_kind_tag(user_data: u128)
    ensures
        spec_collider_kind(user_data) != ColliderKind::Unknown ==> spec_collider_kind(
            user_data,
        ).spec_user_data() == user_data,
        spec_collider_kind(user_data) == ColliderKind::Unknown <==> (user_data != 1 && user_data
            != 2),
{
}

} // verus!
