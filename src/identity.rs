//! The node's persistent identity: a random id and a human name, kept in a
//! length-prefixed binary record that must survive restarts.

use vstd::prelude::*;
use crate::text::same_text;

verus! {

/// Length of a node id.
pub const ID_LEN: usize = 32;

/// Letters that a node id is drawn from.
pub const ALPHABET: &'static str = "abcdefghijklmnopqrstuvwxyz";

/// Body of a uniqueness probe that found the name free.
pub const NAME_AVAILABLE: &'static str = "false";

/// The record bytes that the binary encoder writes for an id and a name.
pub uninterp spec fn identity_bytes(node_id: Seq<char>, name: Seq<char>) -> Seq<u8>;

/// Relies on `bincode::serialize` of a `(String, String)` pair: the record
/// depends on the two strings alone. Encoding strings into a `Vec` has no
/// failing path in bincode 1 (no size limit, an infallible writer).
#[verifier::external_body]
fn encode_identity(node_id: &String, name: &String) -> (r: Vec<u8>)
    ensures
        r@ == identity_bytes(node_id@, name@),
{
    bincode::serialize(&(node_id, name)).unwrap()
}

/// `r` is what decoding `bytes` may give: the two strings, when `bytes` is
/// the record of two strings.
pub open spec fn reads_back(bytes: Seq<u8>, r: Option<(String, String)>) -> bool {
    forall|a: Seq<char>, b: Seq<char>| #[trigger]
        identity_bytes(a, b) == bytes ==> (r matches Some(p) && p.0@ == a && p.1@ == b)
}

/// Relies on `bincode::deserialize::<(String, String)>`: a record that
/// `bincode::serialize` wrote for two strings reads back as those strings.
#[verifier::external_body]
fn decode_identity(bytes: &Vec<u8>) -> (r: Option<(String, String)>)
    ensures
        reads_back(bytes@, r),
{
    bincode::deserialize::<(String, String)>(bytes).ok()
}

/// Relies on `rand::thread_rng` and `Rng::gen_range`: a value drawn from
/// `low..high`, which must not be empty.
#[verifier::external_body]
fn draw_below(low: usize, high: usize) -> (r: usize)
    requires
        low < high,
    ensures
        low <= r < high,
{
    rand::Rng::gen_range(&mut rand::thread_rng(), low..high)
}

/// A lowercase ASCII letter.
pub open spec fn is_lower(c: char) -> bool {
    'a' <= c <= 'z'
}

/// A well-formed node id: 32 lowercase letters.
pub open spec fn valid_node_id(id: Seq<char>) -> bool {
    id.len() == ID_LEN && forall|i: int| 0 <= i < id.len() ==> is_lower(#[trigger] id[i])
}

/// A fresh random node id of 32 lowercase letters.
pub fn gen_node_id() -> (r: String)
    ensures
        valid_node_id(r@),
{
    proof {
        reveal_strlit("abcdefghijklmnopqrstuvwxyz");
    }
    assert(forall|k: int| 0 <= k < 26 ==> is_lower(#[trigger] ALPHABET@[k]));
    let mut id = String::new();
    let mut i: usize = 0;
    while i < ID_LEN
        invariant
            i <= ID_LEN,
            id@.len() == i,
            ALPHABET@.len() == 26,
            forall|k: int| 0 <= k < 26 ==> is_lower(#[trigger] ALPHABET@[k]),
            forall|k: int| 0 <= k < i ==> is_lower(#[trigger] id@[k]),
        decreases ID_LEN - i,
    {
        let k = draw_below(0, 26);
        let letter = ALPHABET.substring_char(k, k + 1);
        let ghost before = id@;
        id.append(letter);
        assert(id@[i as int] == ALPHABET@[k as int]);
        assert(forall|t: int| 0 <= t < i ==> id@[t] == before[t]);
        i = i + 1;
    }
    id
}

/// The identity of this node.
pub struct NodeIdentity {
    pub node_id: String,
    pub name: String,
}

/// A record that reads back as usable: both fields present.
pub open spec fn usable(node_id: Seq<char>, name: Seq<char>) -> bool {
    node_id.len() > 0 && name.len() > 0
}

/// What bootstrap does with the identity file it found.
pub enum IdentityStart {
    /// The file held a usable identity.
    Loaded(NodeIdentity),
    /// Make a new identity; delete the unreadable file first when set.
    Regenerate { delete_file: bool },
}

/// Decides from the identity file's contents (`None` when there is no
/// file) whether to reuse the identity or make a new one. A file written
/// for a usable identity always reads back as that identity, so a node
/// keeps its id across restarts.
pub fn load_node_info(file: Option<Vec<u8>>) -> (r: IdentityStart)
    ensures
        file is None ==> r == (IdentityStart::Regenerate { delete_file: false }),
        file is Some ==> (r matches IdentityStart::Regenerate { delete_file } ==> delete_file),
        r matches IdentityStart::Loaded(i) ==> usable(i.node_id@, i.name@),
        forall|a: Seq<char>, b: Seq<char>|
            #![trigger identity_bytes(a, b)]
            file matches Some(bytes) && bytes@ == identity_bytes(a, b) && usable(a, b) ==> (
            r matches IdentityStart::Loaded(i) && i.node_id@ == a && i.name@ == b),
{
    match file {
        None => IdentityStart::Regenerate { delete_file: false },
        Some(bytes) => match decode_identity(&bytes) {
            Some((node_id, name)) => {
                if node_id.as_str().unicode_len() > 0 && name.as_str().unicode_len() > 0 {
                    IdentityStart::Loaded(NodeIdentity { node_id, name })
                } else {
                    IdentityStart::Regenerate { delete_file: true }
                }
            },
            None => IdentityStart::Regenerate { delete_file: true },
        },
    }
}

/// The record to write for a new identity.
pub fn node_info_record(identity: &NodeIdentity) -> (r: Vec<u8>)
    ensures
        r@ == identity_bytes(identity.node_id@, identity.name@),
{
    encode_identity(&identity.node_id, &identity.name)
}

/// What the uniqueness probe of a proposed name said.
pub enum NameStep {
    /// The name is free: keep it.
    Accept(String),
    /// The name is taken: ask for another.
    Retry,
    /// The control plane failed: bootstrap stops with status 1.
    Fatal,
}

/// Model of a probe reply: `None` on a failed call, else whether the name
/// is free.
pub open spec fn probe_spec(status_ok: bool, body: Seq<char>) -> Option<bool> {
    if !status_ok {
        None
    } else {
        Some(body == NAME_AVAILABLE@)
    }
}

/// Decides on a proposed name from the probe's status and body: the body
/// `false` means no node has that name yet.
pub fn prompt_node_name(name: String, status_ok: bool, body: &str) -> (r: NameStep)
    ensures
        match probe_spec(status_ok, body@) {
            None => r is Fatal,
            Some(true) => r == NameStep::Accept(name),
            Some(false) => r is Retry,
        },
{
    if !status_ok {
        NameStep::Fatal
    } else if same_text(body, NAME_AVAILABLE) {
        NameStep::Accept(name)
    } else {
        NameStep::Retry
    }
}

/// The name that the prompt loop keeps for proposals `names` with probe
/// outcomes `replies`: the first free one, unless a failed probe comes
/// first.
pub open spec fn loop_result(names: Seq<Seq<char>>, replies: Seq<Option<bool>>) -> Option<Seq<char>>
    decreases names.len(),
{
    if names.len() == 0 || replies.len() == 0 {
        None
    } else {
        match replies[0] {
            None => None,
            Some(true) => Some(names[0]),
            Some(false) => loop_result(names.drop_first(), replies.drop_first()),
        }
    }
}

/// When the first `n - 1` proposals are taken and the `n`-th is free, the
/// loop keeps exactly the `n`-th name.
pub proof fn lemma_name_loop(names: Seq<Seq<char>>, replies: Seq<Option<bool>>, n: int)
    requires
        1 <= n <= names.len(),
        n <= replies.len(),
        forall|i: int| 0 <= i < n - 1 ==> replies[i] == Some(false),
        replies[n - 1] == Some(true),
    ensures
        loop_result(names, replies) == Some(names[n - 1]),
    decreases n,
{
    if n > 1 {
        assert(replies[0] == Some(false));
        let rn = replies.drop_first();
        assert forall|i: int| 0 <= i < n - 2 implies rn[i] == Some(false) by {
            assert(rn[i] == replies[i + 1]);
        }
        lemma_name_loop(names.drop_first(), rn, n - 1);
    }
}

} // verus!
