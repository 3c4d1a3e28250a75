//! Sensemaker paths: the string keys under which the sensemaker cell keeps the
//! state of a piece of content or of an agent. A path is a namespace, a
//! separator and an address. Addresses made from raw bytes are written in
//! URL-safe base64, whose alphabet lacks the separator, so the last separator
//! of a path always ends its namespace.

use crate::encoding::{encode_url_safe, encoded, in_alphabet, lemma_encoded_in_alphabet,
    lemma_encoded_injective, Alphabet};
use crate::hash::{AgentPubKey, EntryHash};
use vstd::prelude::*;

verus! {

/// The character between a namespace and an address.
pub const PATH_SEPARATOR: char = '/';

/// `path1`, the separator, `path2`.
pub open spec fn composed(path1: Seq<char>, path2: Seq<char>) -> Seq<char> {
    path1 + seq![PATH_SEPARATOR] + path2
}

/// Raw bytes written as an address: URL-safe base64 with padding.
pub open spec fn address_text(raw: Seq<u8>) -> Seq<char> {
    encoded(Alphabet::UrlSafe, raw)
}

/// The path of the content or agent with the raw address `raw` under
/// `namespace`.
pub open spec fn address_path(namespace: Seq<char>, raw: Seq<u8>) -> Seq<char> {
    composed(namespace, address_text(raw))
}

/// Whether `text` is free of the separator.
pub open spec fn separator_free(text: Seq<char>) -> bool {
    forall|i: int| 0 <= i < text.len() ==> text[i] != PATH_SEPARATOR
}

/// Joins two paths with the separator.
pub fn compose_paths(path1: &String, path2: &String) -> (path: String)
    ensures
        path@ == composed(path1@, path2@),
{
    proof {
        reveal_strlit("/");
    }
    let joined = path1.clone().concat("/").concat(path2.as_str());
    assert(joined@ =~= composed(path1@, path2@));
    joined
}

/// An entry's address as it is written in paths and payloads: URL-safe
/// base64 with padding.
pub fn entry_address(target_eh: &EntryHash) -> (text: String)
    ensures
        text@ == address_text(target_eh@),
{
    encode_url_safe(target_eh.get_raw_39())
}

/// An agent's key as it is written in paths and payloads: URL-safe base64
/// with padding. This is the only text under which the endpoints look for an
/// agent's score. The standard alphabet writes most keys otherwise (`+` and
/// `/` where this has `-` and `_`), and a score that was initialized or
/// stepped under such a text is kept under another path: whoever calls
/// `init_agent_sm_data` or `step_sm_path_remote` for an agent gives this
/// text.
pub fn agent_address(agent_pk: &AgentPubKey) -> (text: String)
    ensures
        text@ == address_text(agent_pk@),
{
    encode_url_safe(agent_pk.get_raw_39())
}

/// The path of the entry `target_eh` under the namespace `path_string`.
pub fn compose_entry_hash_path(path_string: &String, target_eh: EntryHash) -> (path: String)
    ensures
        path@ == address_path(path_string@, target_eh@),
{
    let address = entry_address(&target_eh);
    compose_paths(path_string, &address)
}

/// The path of the agent `agent_pk` under the namespace `path_string`.
pub fn compose_agent_path(path_string: &String, agent_pk: &AgentPubKey) -> (path: String)
    ensures
        path@ == address_path(path_string@, agent_pk@),
{
    let address = agent_address(agent_pk);
    compose_paths(path_string, &address)
}

/// No address written from raw bytes holds the separator.
pub proof fn lemma_address_text_separator_free(raw: Seq<u8>)
    ensures
        separator_free(address_text(raw)),
{
    lemma_encoded_in_alphabet(Alphabet::UrlSafe, raw);
    assert forall|i: int| 0 <= i < address_text(raw).len() implies address_text(raw)[i]
        != PATH_SEPARATOR by {
        assert(in_alphabet(Alphabet::UrlSafe, encoded(Alphabet::UrlSafe, raw)[i]));
    }
}

/// Composition is injective on addresses that are free of the separator: two
/// pairs of namespace and address with the same path are the same pair. The
/// namespaces may hold the separator.
pub proof fn law_text_paths_are_injective(
    namespace1: Seq<char>,
    address1: Seq<char>,
    namespace2: Seq<char>,
    address2: Seq<char>,
)
    requires
        separator_free(address1),
        separator_free(address2),
        composed(namespace1, address1) == composed(namespace2, address2),
    ensures
        namespace1 == namespace2,
        address1 == address2,
{
    let first = composed(namespace1, address1);
    let second = composed(namespace2, address2);
    let n1 = namespace1.len() as int;
    let n2 = namespace2.len() as int;
    assert(first.len() == n1 + 1 + address1.len());
    assert(second.len() == n2 + 1 + address2.len());
    assert(first[n1] == PATH_SEPARATOR);
    assert(second[n2] == PATH_SEPARATOR);
    if n1 < n2 {
        // The separator that ends the second namespace would lie in the
        // first address.
        assert(first[n2] == address1[n2 - n1 - 1]);
        assert(false);
    }
    if n2 < n1 {
        assert(second[n1] == address2[n1 - n2 - 1]);
        assert(false);
    }
    assert(first.len() == second.len());
    assert forall|i: int| 0 <= i < n1 implies namespace1[i] == namespace2[i] by {
        assert(first[i] == namespace1[i]);
        assert(second[i] == namespace2[i]);
    }
    assert(namespace1 =~= namespace2);
    assert forall|i: int| 0 <= i < address1.len() implies address1[i] == address2[i] by {
        assert(first[n1 + 1 + i] == address1[i]);
        assert(second[n2 + 1 + i] == address2[i]);
    }
    assert(address1 =~= address2);
}

/// Whether the second pair cuts the path of the first at a later separator:
/// the second namespace is the first, a separator, and the beginning of the
/// first address up to a separator inside it.
pub open spec fn cuts_later(
    namespace1: Seq<char>,
    address1: Seq<char>,
    namespace2: Seq<char>,
    address2: Seq<char>,
) -> bool {
    let between = namespace2.skip(namespace1.len() as int + 1);
    &&& namespace2.len() > namespace1.len()
    &&& namespace2 == namespace1 + seq![PATH_SEPARATOR] + between
    &&& address1 == between + seq![PATH_SEPARATOR] + address2
}

/// Two pairs of namespace and text address have the same path exactly if
/// they are the same pair, or one of them cuts the path of the other at a
/// later separator. So only an address that holds the separator can make
/// two pairs collide.
pub proof fn law_text_paths_collide_only_by_cutting(
    namespace1: Seq<char>,
    address1: Seq<char>,
    namespace2: Seq<char>,
    address2: Seq<char>,
)
    ensures
        composed(namespace1, address1) == composed(namespace2, address2) <==> {
            ||| namespace1 == namespace2 && address1 == address2
            ||| cuts_later(namespace1, address1, namespace2, address2)
            ||| cuts_later(namespace2, address2, namespace1, address1)
        },
{
    let first = composed(namespace1, address1);
    let second = composed(namespace2, address2);
    if cuts_later(namespace1, address1, namespace2, address2) {
        lemma_cut_keeps_the_path(namespace1, address1, namespace2, address2);
    }
    if cuts_later(namespace2, address2, namespace1, address1) {
        lemma_cut_keeps_the_path(namespace2, address2, namespace1, address1);
    }
    if first == second {
        let n1 = namespace1.len() as int;
        let n2 = namespace2.len() as int;
        assert(first.len() == n1 + 1 + address1.len());
        assert(second.len() == n2 + 1 + address2.len());
        if n1 < n2 {
            lemma_equal_paths_cut(namespace1, address1, namespace2, address2);
        } else if n2 < n1 {
            lemma_equal_paths_cut(namespace2, address2, namespace1, address1);
        } else {
            assert forall|i: int| 0 <= i < n1 implies namespace1[i] == namespace2[i] by {
                assert(first[i] == namespace1[i]);
                assert(second[i] == namespace2[i]);
            }
            assert(namespace1 =~= namespace2);
            assert forall|i: int| 0 <= i < address1.len() implies address1[i] == address2[i] by {
                assert(first[n1 + 1 + i] == address1[i]);
                assert(second[n2 + 1 + i] == address2[i]);
            }
            assert(address1 =~= address2);
        }
    }
}

/// A pair that cuts the path of another at a later separator has the same
/// path.
proof fn lemma_cut_keeps_the_path(
    namespace1: Seq<char>,
    address1: Seq<char>,
    namespace2: Seq<char>,
    address2: Seq<char>,
)
    requires
        cuts_later(namespace1, address1, namespace2, address2),
    ensures
        composed(namespace1, address1) == composed(namespace2, address2),
{
    assert(composed(namespace1, address1) =~= composed(namespace2, address2));
}

/// Of two pairs with the same path, the one with the longer namespace cuts
/// the path of the other at a later separator.
proof fn lemma_equal_paths_cut(
    namespace1: Seq<char>,
    address1: Seq<char>,
    namespace2: Seq<char>,
    address2: Seq<char>,
)
    requires
        composed(namespace1, address1) == composed(namespace2, address2),
        namespace1.len() < namespace2.len(),
    ensures
        cuts_later(namespace1, address1, namespace2, address2),
{
    let first = composed(namespace1, address1);
    let second = composed(namespace2, address2);
    let n1 = namespace1.len() as int;
    let n2 = namespace2.len() as int;
    assert(first.len() == n1 + 1 + address1.len());
    assert(second.len() == n2 + 1 + address2.len());
    let between = namespace2.skip(n1 + 1);
    assert forall|i: int| 0 <= i < address1.len() implies address1[i] == (between
        + seq![PATH_SEPARATOR] + address2)[i] by {
        assert(first[n1 + 1 + i] == address1[i]);
        if i < n2 - n1 - 1 {
            assert(second[n1 + 1 + i] == namespace2[n1 + 1 + i]);
        } else {
            assert(second[n1 + 1 + i] == (seq![PATH_SEPARATOR] + address2)[i - (n2 - n1 - 1)]);
        }
    }
    assert(address1 =~= between + seq![PATH_SEPARATOR] + address2);
    assert forall|i: int| 0 <= i < n2 implies namespace2[i] == (namespace1
        + seq![PATH_SEPARATOR] + between)[i] by {
        assert(second[i] == namespace2[i]);
        if i < n1 {
            assert(first[i] == namespace1[i]);
        }
    }
    assert(namespace2 =~= namespace1 + seq![PATH_SEPARATOR] + between);
}

/// Path composition is injective: two pairs of namespace and raw address
/// with the same path are the same pair. So distinct pairs never collide,
/// whatever the namespaces hold.
pub proof fn law_paths_are_injective(
    namespace1: Seq<char>,
    raw1: Seq<u8>,
    namespace2: Seq<char>,
    raw2: Seq<u8>,
)
    requires
        address_path(namespace1, raw1) == address_path(namespace2, raw2),
    ensures
        namespace1 == namespace2,
        raw1 == raw2,
{
    lemma_address_text_separator_free(raw1);
    lemma_address_text_separator_free(raw2);
    law_text_paths_are_injective(namespace1, address_text(raw1), namespace2, address_text(raw2));
    lemma_encoded_injective(Alphabet::UrlSafe, raw1, raw2);
}

/// Two different addresses have different paths under one namespace, and
/// under any two.
pub proof fn law_distinct_addresses_have_distinct_paths(
    namespace1: Seq<char>,
    raw1: Seq<u8>,
    namespace2: Seq<char>,
    raw2: Seq<u8>,
)
    requires
        raw1 != raw2,
    ensures
        address_path(namespace1, raw1) != address_path(namespace2, raw2),
{
    if address_path(namespace1, raw1) == address_path(namespace2, raw2) {
        law_paths_are_injective(namespace1, raw1, namespace2, raw2);
    }
}

} // verus!
