//! The rooms the gateway forwards to: each room's slug, where its service
//! listens, and which actions it accepts.
use vstd::prelude::*;
use crate::text::{
    char_pred, concat3, lemma_trim_start_idempotent, str_eq, trim_end_char, trim_end_where,
    trim_start_char, trim_start_where,
};

verus! {

#[derive(Clone, Copy)]
pub struct RoomTarget {
    pub slug: &'static str,
    pub base_url: &'static str,
    pub actions: &'static [&'static str],
}

/// The actions of a target, as text.
pub open spec fn actions_view(actions: Seq<&'static str>) -> Seq<Seq<char>> {
    actions.map_values(|a: &'static str| a@)
}

/// `{base_url without trailing '/'}/{action without leading '/'}`.
pub open spec fn action_url_spec(base_url: Seq<char>, action: Seq<char>) -> Seq<char> {
    trim_end_where(base_url, char_pred('/')) + "/"@ + trim_start_where(action, char_pred('/'))
}

impl RoomTarget {
    /// The URL of one of the room's actions.
    pub fn action_url(&self, action: &str) -> (r: String)
        ensures
            r@ == action_url_spec(self.base_url@, action@),
    {
        concat3(trim_end_char(self.base_url, '/'), "/", trim_start_char(action, '/'))
    }

    pub open spec fn supports_spec(&self, action: Seq<char>) -> bool {
        actions_view(self.actions@).contains(action)
    }

    /// Whether the room accepts the action (`actions.contains(&action)`).
    pub fn supports(&self, action: &str) -> (r: bool)
        ensures
            r == self.supports_spec(action@),
    {
        let n = self.actions.len();
        let mut i: usize = 0;
        while i < n
            invariant
                n == self.actions@.len(),
                i <= n,
                forall|k: int| 0 <= k < i ==> #[trigger] self.actions@[k]@ != action@,
            decreases n - i,
        {
            if str_eq(self.actions[i], action) {
                assert(actions_view(self.actions@)[i as int] == action@);
                return true;
            }
            i = i + 1;
        }
        assert forall|k: int| 0 <= k < actions_view(self.actions@).len() implies
            #[trigger] actions_view(self.actions@)[k] != action@ by {
            assert(actions_view(self.actions@)[k] == self.actions@[k]@);
        }
        false
    }
}

#[derive(Clone)]
pub struct RoomRegistry {
    targets: &'static [RoomTarget],
}

/// The first of the targets that carries `slug`.
pub open spec fn first_with_slug(targets: Seq<RoomTarget>, slug: Seq<char>) -> Option<RoomTarget>
    decreases targets.len(),
{
    if targets.len() == 0 {
        None
    } else if targets[0].slug@ == slug {
        Some(targets[0])
    } else {
        first_with_slug(targets.drop_first(), slug)
    }
}

impl RoomRegistry {
    /// The registered targets, in order.
    pub closed spec fn targets(&self) -> Seq<RoomTarget> {
        self.targets@
    }

    /// The rooms of the platform: `rce` (action `exec`) at
    /// `http://room-rce:9000` and `xss` (actions `post`, `comments`,
    /// `change-password`) at `http://room-xss:9000`.
    pub fn default() -> (r: Self)
        ensures
            r.targets().len() == 2,
            r.targets()[0].slug@ == "rce"@,
            r.targets()[0].base_url@ == "http://room-rce:9000"@,
            actions_view(r.targets()[0].actions@) == seq!["exec"@],
            r.targets()[1].slug@ == "xss"@,
            r.targets()[1].base_url@ == "http://room-xss:9000"@,
            actions_view(r.targets()[1].actions@) == seq!["post"@, "comments"@, "change-password"@],
    {
        let r = Self {
            targets: &[
                RoomTarget { slug: "rce", base_url: "http://room-rce:9000", actions: &["exec"] },
                RoomTarget {
                    slug: "xss",
                    base_url: "http://room-xss:9000",
                    actions: &["post", "comments", "change-password"],
                },
            ],
        };
        assert(actions_view(r.targets@[0].actions@) =~= seq!["exec"@]);
        assert(actions_view(r.targets@[1].actions@) =~= seq!["post"@, "comments"@, "change-password"@]);
        r
    }

    /// The first target registered under `slug`.
    pub fn get(&self, slug: &str) -> (r: Option<RoomTarget>)
        ensures
            r == first_with_slug(self.targets(), slug@),
    {
        let n = self.targets.len();
        let mut i: usize = 0;
        assert(self.targets@.skip(0) =~= self.targets@);
        while i < n
            invariant
                n == self.targets@.len(),
                i <= n,
                first_with_slug(self.targets@, slug@) == first_with_slug(self.targets@.skip(i as int), slug@),
            decreases n - i,
        {
            let t = self.targets[i];
            let ghost rest = self.targets@.skip(i as int);
            assert(rest[0] == t);
            assert(rest.drop_first() =~= self.targets@.skip(i + 1));
            if str_eq(t.slug, slug) {
                return Some(t);
            }
            i = i + 1;
        }
        assert(self.targets@.skip(n as int).len() == 0);
        None
    }
}

/// What `get` finds carries the slug asked for, and it finds nothing
/// exactly when no target carries that slug.
pub proof fn lemma_get_finds_slug(targets: Seq<RoomTarget>, slug: Seq<char>)
    ensures
        first_with_slug(targets, slug) matches Some(t) ==> t.slug@ == slug && targets.contains(t),
        first_with_slug(targets, slug) is None <==> forall|i: int| 0 <= i < targets.len() ==> #[trigger] targets[i].slug@ != slug,
    decreases targets.len(),
{
    if targets.len() > 0 {
        lemma_get_finds_slug(targets.drop_first(), slug);
        if targets[0].slug@ != slug {
            assert forall|i: int| 0 <= i < targets.len() && (forall|j: int| 0 <= j < targets.drop_first().len() ==> #[trigger] targets.drop_first()[j].slug@ != slug) implies #[trigger] targets[i].slug@ != slug by {
                if i > 0 {
                    assert(targets[i] == targets.drop_first()[i - 1]);
                }
            }
            if first_with_slug(targets, slug) is None {
            } else {
                let t = first_with_slug(targets, slug)->0;
                let k = choose|k: int| 0 <= k < targets.drop_first().len() && targets.drop_first()[k] == t;
                assert(targets[k + 1] == t);
                assert(targets.drop_first()[k].slug@ == slug);
                assert(!(forall|i: int| 0 <= i < targets.len() ==> #[trigger] targets[i].slug@ != slug)) by {
                    assert(targets[k + 1].slug@ == slug);
                }
            }
        } else {
            assert(targets[0].slug@ == slug);
        }
    }
}

/// An action's URL does not depend on leading slashes of the action.
pub proof fn lemma_action_url_ignores_leading_slashes(base_url: Seq<char>, action: Seq<char>)
    ensures
        action_url_spec(base_url, action) == action_url_spec(
            base_url,
            trim_start_where(action, char_pred('/')),
        ),
{
    lemma_trim_start_idempotent(action, char_pred('/'));
}

} // verus!
