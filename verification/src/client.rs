use vstd::prelude::*;
use vstd::string::StringExecFns;
use crate::types::{FetchError, Item, StoryKind};

verus! {

// ---------------------------------------------------------------------------
// Request paths and URLs
// ---------------------------------------------------------------------------

/// The base address of the remote listing service.
pub open spec fn api_base() -> Seq<char> {
    "https://hacker-news.firebaseio.com"@
}

pub fn api_base_str() -> (r: &'static str)
    ensures
        r@ == api_base(),
{
    "https://hacker-news.firebaseio.com"
}

/// The character a decimal digit prints as.
pub open spec fn digit_char(d: int) -> char {
    if d == 0 {
        '0'
    } else if d == 1 {
        '1'
    } else if d == 2 {
        '2'
    } else if d == 3 {
        '3'
    } else if d == 4 {
        '4'
    } else if d == 5 {
        '5'
    } else if d == 6 {
        '6'
    } else if d == 7 {
        '7'
    } else if d == 8 {
        '8'
    } else {
        '9'
    }
}

/// The decimal rendering of a number: most significant digit first, no sign,
/// no leading zeros (a single zero for zero itself).
pub open spec fn decimal_digits(n: nat) -> Seq<char>
    decreases n,
{
    if n < 10 {
        seq![digit_char(n as int)]
    } else {
        decimal_digits(n / 10).push(digit_char((n % 10) as int))
    }
}

fn digit_str(d: u32) -> (r: &'static str)
    requires
        d < 10,
    ensures
        r@ == seq![digit_char(d as int)],
{
    proof {
        reveal_strlit("0");
        reveal_strlit("1");
        reveal_strlit("2");
        reveal_strlit("3");
        reveal_strlit("4");
        reveal_strlit("5");
        reveal_strlit("6");
        reveal_strlit("7");
        reveal_strlit("8");
        reveal_strlit("9");
        assert("0"@ =~= seq![digit_char(0)]);
        assert("1"@ =~= seq![digit_char(1)]);
        assert("2"@ =~= seq![digit_char(2)]);
        assert("3"@ =~= seq![digit_char(3)]);
        assert("4"@ =~= seq![digit_char(4)]);
        assert("5"@ =~= seq![digit_char(5)]);
        assert("6"@ =~= seq![digit_char(6)]);
        assert("7"@ =~= seq![digit_char(7)]);
        assert("8"@ =~= seq![digit_char(8)]);
        assert("9"@ =~= seq![digit_char(9)]);
    }
    match d {
        0 => "0",
        1 => "1",
        2 => "2",
        3 => "3",
        4 => "4",
        5 => "5",
        6 => "6",
        7 => "7",
        8 => "8",
        _ => "9",
    }
}

/// Renders a number in decimal, for use inside a request path.
pub fn u32_decimal(n: u32) -> (r: String)
    ensures
        r@ == decimal_digits(n as nat),
    decreases n,
{
    if n < 10 {
        digit_str(n).to_owned()
    } else {
        assert(n / 10 < n);
        let mut s = u32_decimal(n / 10);
        s.append(digit_str(n % 10));
        proof {
            assert(decimal_digits((n / 10) as nat) + seq![digit_char((n % 10) as int)]
                =~= decimal_digits((n / 10) as nat).push(digit_char((n % 10) as int)));
        }
        s
    }
}

/// The request path that lists the ids of one feed kind.
pub open spec fn story_path(kind: StoryKind) -> Seq<char> {
    match kind {
        StoryKind::Top => "v0/topstories.json"@,
        StoryKind::Best => "v0/beststories.json"@,
        StoryKind::New => "v0/newstories.json"@,
    }
}

pub fn story_kind_endpoint(kind: &StoryKind) -> (r: String)
    ensures
        r@ == story_path(*kind),
{
    match kind {
        StoryKind::Top => "v0/topstories.json".to_owned(),
        StoryKind::Best => "v0/beststories.json".to_owned(),
        StoryKind::New => "v0/newstories.json".to_owned(),
    }
}

/// The request path that resolves one item id.
pub open spec fn item_path(item_id: u32) -> Seq<char> {
    "v0/item/"@ + decimal_digits(item_id as nat) + ".json"@
}

pub fn item_endpoint(item_id: u32) -> (r: String)
    ensures
        r@ == item_path(item_id),
{
    let mut s = "v0/item/".to_owned();
    let digits = u32_decimal(item_id);
    s.append(digits.as_str());
    s.append(".json");
    proof {
        assert(s@ =~= item_path(item_id));
    }
    s
}

/// The serialised URL that `path`, taken as a relative reference, resolves
/// to against `base`; defined only through the trusted wrapper below.
pub uninterp spec fn url_joined(base: Seq<char>, path: Seq<char>) -> Seq<char>;

/// Whether resolving `path` against `base` yields a URL at all; like the
/// URL itself, a fixed fact of the two strings, defined only through the
/// trusted wrapper below.
pub uninterp spec fn url_join_ok(base: Seq<char>, path: Seq<char>) -> bool;

/// Relies on `url::Url::parse` and `url::Url::join`: parsing `base`,
/// resolving `path` against it and serialising the result with
/// `url::Url::as_str` depend on the two strings alone. Either step may
/// reject its input, hence the `Option` — but whether it does is itself a
/// function of the two strings, so success is pinned by a name too.
#[verifier::external_body]
fn join_url(base: &str, path: &str) -> (r: Option<String>)
    ensures
        r matches Some(s) ==> s@ == url_joined(base@, path@),
        r is Some <==> url_join_ok(base@, path@),
{
    match url::Url::parse(base) {
        Ok(u) => match u.join(path) {
            Ok(joined) => Some(String::from(joined.as_str())),
            Err(_) => None,
        },
        Err(_) => None,
    }
}

/// The full URL that lists the ids of one feed kind; a URL comes back
/// exactly when the URL library accepts the combination, which is a fixed
/// fact of the base and the path.
pub fn story_url(kind: &StoryKind) -> (r: Option<String>)
    ensures
        r matches Some(s) ==> s@ == url_joined(api_base(), story_path(*kind)),
        r is Some <==> url_join_ok(api_base(), story_path(*kind)),
{
    let path = story_kind_endpoint(kind);
    join_url(api_base_str(), path.as_str())
}

/// The full URL that resolves one item id; a URL comes back exactly when
/// the URL library accepts the combination, which is a fixed fact of the
/// base and the path.
pub fn item_url(item_id: u32) -> (r: Option<String>)
    ensures
        r matches Some(s) ==> s@ == url_joined(api_base(), item_path(item_id)),
        r is Some <==> url_join_ok(api_base(), item_path(item_id)),
{
    let path = item_endpoint(item_id);
    join_url(api_base_str(), path.as_str())
}

// ---------------------------------------------------------------------------
// Batch resolution
// ---------------------------------------------------------------------------

/// The items of the outcomes that succeeded, in completion order.
pub open spec fn successes_of(s: Seq<Result<Item, FetchError>>) -> Seq<Item>
    decreases s.len(),
{
    if s.len() == 0 {
        Seq::empty()
    } else {
        match s.last() {
            Ok(item) => successes_of(s.drop_last()).push(item),
            Err(_) => successes_of(s.drop_last()),
        }
    }
}

/// The errors of the outcomes that failed, in completion order.
pub open spec fn failures_of(s: Seq<Result<Item, FetchError>>) -> Seq<FetchError>
    decreases s.len(),
{
    if s.len() == 0 {
        Seq::empty()
    } else {
        match s.last() {
            Ok(_) => failures_of(s.drop_last()),
            Err(e) => failures_of(s.drop_last()).push(e),
        }
    }
}

/// Splits the outcomes of one batch of fetches into the resolved items and
/// the failure diagnostics. A failure never aborts the batch: it only goes
/// to the diagnostic side.
pub fn partition_outcomes(outcomes: Vec<Result<Item, FetchError>>) -> (r: (
    Vec<Item>,
    Vec<FetchError>,
))
    ensures
        r.0@ == successes_of(outcomes@),
        r.1@ == failures_of(outcomes@),
{
    let mut rest = outcomes;
    let ghost all = rest@;
    let mut items: Vec<Item> = Vec::new();
    let mut fails: Vec<FetchError> = Vec::new();
    let ghost mut done: int = 0;
    proof {
        assert(all.take(0) =~= Seq::<Result<Item, FetchError>>::empty());
        assert(all.skip(0) =~= all);
    }
    while rest.len() > 0
        invariant
            0 <= done <= all.len(),
            rest@ == all.skip(done),
            items@ == successes_of(all.take(done)),
            fails@ == failures_of(all.take(done)),
        decreases rest@.len(),
    {
        let outcome = rest.remove(0);
        proof {
            assert(all.skip(done)[0] == all[done]);
            assert(all.skip(done).remove(0) =~= all.skip(done + 1));
        }
        match outcome {
            Ok(item) => items.push(item),
            Err(e) => fails.push(e),
        }
        proof {
            assert(all.take(done + 1).drop_last() =~= all.take(done));
            assert(all.take(done + 1).last() == all[done]);
            done = done + 1;
        }
    }
    proof {
        assert(all.take(done) =~= all);
    }
    (items, fails)
}

/// Law: a batch splits exactly — every outcome is counted once, as a
/// success or as a failure; in particular, when K of N fetches fail, N − K
/// items come back.
pub proof fn lemma_batch_counts(s: Seq<Result<Item, FetchError>>)
    ensures
        successes_of(s).len() + failures_of(s).len() == s.len(),
    decreases s.len(),
{
    if s.len() > 0 {
        lemma_batch_counts(s.drop_last());
    }
}

/// Law: an empty batch resolves to no items and no diagnostics.
pub proof fn lemma_batch_empty()
    ensures
        successes_of(Seq::empty()) == Seq::<Item>::empty(),
        failures_of(Seq::empty()) == Seq::<FetchError>::empty(),
{
}

/// Holds when some successful outcome of the batch resolved to `item`.
pub open spec fn came_from_ok(s: Seq<Result<Item, FetchError>>, item: Item) -> bool {
    exists|i: int| 0 <= i < s.len() && #[trigger] s[i] is Ok && s[i]->Ok_0 == item
}

/// Every resolved item comes from a successful outcome of the same batch.
pub proof fn lemma_successes_membership(s: Seq<Result<Item, FetchError>>)
    ensures
        forall|k: int| 0 <= k < successes_of(s).len() ==> came_from_ok(
            s,
            #[trigger] successes_of(s)[k],
        ),
    decreases s.len(),
{
    if s.len() > 0 {
        lemma_successes_membership(s.drop_last());
        let pre = s.drop_last();
        assert forall|k: int| 0 <= k < successes_of(s).len() implies came_from_ok(
            s,
            #[trigger] successes_of(s)[k],
        ) by {
            if s.last() is Ok && k == successes_of(s).len() - 1 {
                let i = s.len() - 1;
                assert(s[i] is Ok && s[i]->Ok_0 == successes_of(s)[k]);
            } else {
                assert(successes_of(s)[k] == successes_of(pre)[k]);
                let i = choose|i: int|
                    0 <= i < pre.len() && #[trigger] pre[i] is Ok && pre[i]->Ok_0
                        == successes_of(pre)[k];
                assert(s[i] == pre[i]);
                assert(s[i] is Ok && s[i]->Ok_0 == successes_of(s)[k]);
            }
        }
    }
}

/// Pointwise shape of an all-successful batch: the resolved items are the
/// fetched items, in order.
pub proof fn lemma_successes_all_ok(s: Seq<Result<Item, FetchError>>)
    requires
        forall|i: int| 0 <= i < s.len() ==> s[i] is Ok,
    ensures
        successes_of(s).len() == s.len(),
        forall|i: int| 0 <= i < s.len() ==> #[trigger] successes_of(s)[i] == s[i]->Ok_0,
    decreases s.len(),
{
    if s.len() > 0 {
        let pre = s.drop_last();
        assert(forall|i: int| 0 <= i < pre.len() ==> pre[i] == s[i]);
        lemma_successes_all_ok(pre);
        assert(s[s.len() - 1] is Ok);
    }
}

/// Law: when every fetch of a batch succeeds and each resolved item carries
/// the id it was fetched for, the batch resolves to exactly as many items
/// as ids, and their ids are, as a set, the ids asked for.
pub proof fn lemma_batch_all_succeed(ids: Seq<u32>, outcomes: Seq<Result<Item, FetchError>>)
    requires
        outcomes.len() == ids.len(),
        forall|i: int| 0 <= i < outcomes.len() ==> #[trigger] outcomes[i] is Ok
            && outcomes[i]->Ok_0.id == ids[i],
    ensures
        successes_of(outcomes).len() == ids.len(),
        successes_of(outcomes).map_values(|item: Item| item.id).to_set() == ids.to_set(),
{
    lemma_successes_all_ok(outcomes);
    assert(successes_of(outcomes).map_values(|item: Item| item.id) =~= ids);
}

/// Law: a batch never resolves the same id twice — when the ids of a batch
/// are distinct and each success carries its own id, the resolved items
/// carry pairwise distinct ids.
pub proof fn lemma_batch_no_duplicate_ids(ids: Seq<u32>, outcomes: Seq<Result<Item, FetchError>>)
    requires
        outcomes.len() == ids.len(),
        forall|i: int| 0 <= i < outcomes.len() && #[trigger] outcomes[i] is Ok
            ==> outcomes[i]->Ok_0.id == ids[i],
        forall|i: int, j: int| 0 <= i < j < ids.len() ==> ids[i] != ids[j],
    ensures
        forall|k1: int, k2: int|
            0 <= k1 < k2 < successes_of(outcomes).len() ==> #[trigger] successes_of(outcomes)[k1].id
                != #[trigger] successes_of(outcomes)[k2].id,
    decreases outcomes.len(),
{
    if outcomes.len() > 0 {
        let pre = outcomes.drop_last();
        let pre_ids = ids.drop_last();
        assert(forall|i: int| 0 <= i < pre.len() ==> pre[i] == outcomes[i]);
        assert(forall|i: int| 0 <= i < pre_ids.len() ==> pre_ids[i] == ids[i]);
        lemma_batch_no_duplicate_ids(pre_ids, pre);
        lemma_successes_membership(pre);
        assert forall|k1: int, k2: int|
            0 <= k1 < k2 < successes_of(outcomes).len() implies #[trigger] successes_of(
            outcomes,
        )[k1].id != #[trigger] successes_of(outcomes)[k2].id by {
            if outcomes.last() is Ok && k2 == successes_of(outcomes).len() - 1 {
                assert(successes_of(outcomes)[k2] == outcomes.last()->Ok_0);
                assert(successes_of(outcomes)[k1] == successes_of(pre)[k1]);
                assert(came_from_ok(pre, successes_of(pre)[k1]));
                let w = choose|w: int|
                    0 <= w < pre.len() && #[trigger] pre[w] is Ok && pre[w]->Ok_0
                        == successes_of(pre)[k1];
                assert(successes_of(outcomes)[k1].id == ids[w]);
                assert(successes_of(outcomes)[k2].id == ids[outcomes.len() - 1]);
                assert(ids[w] != ids[outcomes.len() - 1]);
            } else {
                assert(successes_of(outcomes)[k1] == successes_of(pre)[k1]);
                assert(successes_of(outcomes)[k2] == successes_of(pre)[k2]);
            }
        }
    }
}

/// Law: a failed fetch contributes nothing — when the ids of a batch are
/// distinct and each success carries its own id, no failed id appears among
/// the resolved items.
pub proof fn lemma_batch_failures_dropped(ids: Seq<u32>, outcomes: Seq<Result<Item, FetchError>>)
    requires
        outcomes.len() == ids.len(),
        forall|i: int| 0 <= i < outcomes.len() && #[trigger] outcomes[i] is Ok
            ==> outcomes[i]->Ok_0.id == ids[i],
        forall|i: int, j: int| 0 <= i < j < ids.len() ==> ids[i] != ids[j],
    ensures
        successes_of(outcomes).len() == ids.len() - failures_of(outcomes).len(),
        forall|i: int, k: int| #![trigger successes_of(outcomes)[k], ids[i]]
            0 <= i < outcomes.len() && outcomes[i] is Err && 0 <= k < successes_of(outcomes).len()
                ==> successes_of(outcomes)[k].id != ids[i],
{
    lemma_batch_counts(outcomes);
    lemma_successes_membership(outcomes);
    assert forall|i: int, k: int| #![trigger successes_of(outcomes)[k], ids[i]]
        0 <= i < outcomes.len() && outcomes[i] is Err && 0 <= k < successes_of(outcomes).len()
            implies successes_of(outcomes)[k].id != ids[i] by {
        assert(came_from_ok(outcomes, successes_of(outcomes)[k]));
        let w = choose|w: int|
            0 <= w < outcomes.len() && #[trigger] outcomes[w] is Ok && outcomes[w]->Ok_0
                == successes_of(outcomes)[k];
        assert(successes_of(outcomes)[k].id == ids[w]);
        if w < i {
            assert(ids[w] != ids[i]);
        } else {
            assert(ids[i] != ids[w]);
        }
    }
}

} // verus!
