//! Header tables and how the headers of a request are put together.

use crate::table::{distinct_keys, key_position, lemma_key_position, merged, upsert, Table};
use crate::text::{lowercase, lowercased};
use vstd::prelude::*;

verus! {

/// The user agent sent where neither the spider nor the request names one.
pub const DEFAULT_USER_AGENT: &'static str =
    "Mozilla/5.0 (Windows NT 10.0; Win64; x64) AppleWebKit/537.36 (KHTML, like Gecko) Chrome/120.0.0.0 Safari/537.36";

/// The entries of a header table as pairs of texts.
pub open spec fn texts(headers: Seq<(Seq<char>, String)>) -> Seq<(Seq<char>, Seq<char>)> {
    Seq::new(headers.len(), |i: int| (headers[i].0, headers[i].1@))
}

/// A list of string pairs as pairs of texts.
pub open spec fn pair_texts(pairs: Seq<(&str, &str)>) -> Seq<(Seq<char>, Seq<char>)> {
    Seq::new(pairs.len(), |i: int| (pairs[i].0@, pairs[i].1@))
}

/// Taking the texts of a table's entries keeps every key's place.
pub proof fn lemma_texts_position(headers: Seq<(Seq<char>, String)>, key: Seq<char>)
    ensures
        key_position(texts(headers), key) == key_position(headers, key),
    decreases headers.len(),
{
    if headers.len() > 0 && headers[0].0 != key {
        assert(texts(headers).drop_first() =~= texts(headers.drop_first()));
        lemma_texts_position(headers.drop_first(), key);
    }
}

/// Storing a header and then taking texts is storing its text among the
/// texts.
pub proof fn lemma_texts_upsert(headers: Seq<(Seq<char>, String)>, key: Seq<char>, value: String)
    ensures
        texts(upsert(headers, key, value)) == upsert(texts(headers), key, value@),
        distinct_keys(headers) <==> distinct_keys(texts(headers)),
{
    lemma_texts_position(headers, key);
    lemma_key_position(headers, key);
    if distinct_keys(headers) {
        assert forall|i: int, j: int|
            0 <= i < texts(headers).len() && 0 <= j < texts(headers).len() && i != j implies (
        #[trigger] texts(headers)[i]).0 != (#[trigger] texts(headers)[j]).0 by {}
    }
    if distinct_keys(texts(headers)) {
        assert forall|i: int, j: int|
            0 <= i < headers.len() && 0 <= j < headers.len() && i != j implies (
        #[trigger] headers[i]).0 != (#[trigger] headers[j]).0 by {
            assert(texts(headers)[i].0 != texts(headers)[j].0);
        }
    }
}

/// Stores every pair of `pairs` in `headers`, first pair first.
pub fn set_headers(headers: &mut Table<String, String>, pairs: &Vec<(&str, &str)>)
    requires
        old(headers).wf(),
    ensures
        final(headers).wf(),
        texts(final(headers)@) == merged(texts(old(headers)@), pair_texts(pairs@)),
{
    let mut i: usize = 0;
    assert(pair_texts(pairs@).subrange(0, pairs@.len() as int) =~= pair_texts(pairs@));
    while i < pairs.len()
        invariant
            i <= pairs@.len(),
            headers.wf(),
            merged(texts(headers@), pair_texts(pairs@).subrange(i as int, pairs@.len() as int))
                == merged(texts(old(headers)@), pair_texts(pairs@)),
        decreases pairs@.len() - i,
    {
        let (name, value) = pairs[i];
        let ghost rest = pair_texts(pairs@).subrange(i as int, pairs@.len() as int);
        let owned_value = value.to_owned();
        proof {
            assert(rest.drop_first() =~= pair_texts(pairs@).subrange(
                i + 1,
                pairs@.len() as int,
            ));
            lemma_texts_upsert(headers@, name@, owned_value);
        }
        headers.insert(name.to_owned(), owned_value);
        i += 1;
    }
}

/// Some header is named `user-agent`, in whatever case.
pub open spec fn names_user_agent(headers: Seq<(Seq<char>, Seq<char>)>) -> bool {
    exists|i: int| 0 <= i < headers.len() && lowercase((#[trigger] headers[i]).0) == "user-agent"@
}

/// The headers sent with a request: the spider's headers, overlaid by the
/// request's own, which win where both name a header; and the default user
/// agent where no header names one.
pub open spec fn composed(
    spider: Seq<(Seq<char>, Seq<char>)>,
    request: Seq<(Seq<char>, Seq<char>)>,
) -> Seq<(Seq<char>, Seq<char>)> {
    let overlaid = merged(spider, request);
    if names_user_agent(overlaid) {
        overlaid
    } else {
        upsert(overlaid, "User-Agent"@, DEFAULT_USER_AGENT@)
    }
}

/// Whether `headers` has a header named `user-agent`, in whatever case.
pub fn has_user_agent(headers: &Table<String, String>) -> (found: bool)
    ensures
        found == names_user_agent(texts(headers@)),
{
    let wanted = "user-agent".to_owned();
    let mut i: usize = 0;
    while i < headers.len()
        invariant
            i <= headers@.len(),
            wanted@ == "user-agent"@,
            forall|k: int|
                0 <= k < i ==> lowercase((#[trigger] texts(headers@)[k]).0) != "user-agent"@,
        decreases headers@.len() - i,
    {
        let lower = lowercased(headers.key_at(i).as_str());
        if lower == wanted {
            assert(lowercase(texts(headers@)[i as int].0) == "user-agent"@);
            return true;
        }
        i += 1;
    }
    false
}

/// A copy of a header table.
pub fn copy_headers(headers: &Table<String, String>) -> (copy: Table<String, String>)
    requires
        headers.wf(),
    ensures
        copy.wf(),
        copy@ == headers@,
{
    let mut copy: Table<String, String> = Table::new();
    let mut i: usize = 0;
    while i < headers.len()
        invariant
            i <= headers@.len(),
            copy@ == headers@.subrange(0, i as int),
        decreases headers@.len() - i,
    {
        copy.push_entry(headers.key_at(i).clone(), headers.value_at(i).clone());
        i += 1;
    }
    copy
}

/// Storing texts one by one is storing the headers they are the texts of.
proof fn lemma_texts_merged(base: Seq<(Seq<char>, String)>, over: Seq<(Seq<char>, String)>)
    ensures
        texts(merged(base, over)) == merged(texts(base), texts(over)),
    decreases over.len(),
{
    if over.len() > 0 {
        lemma_texts_upsert(base, over[0].0, over[0].1);
        assert(texts(over).drop_first() =~= texts(over.drop_first()));
        lemma_texts_merged(upsert(base, over[0].0, over[0].1), over.drop_first());
    }
}

/// The headers to send: `spider`'s, overlaid by `request`'s, with the
/// default user agent added where none is named.
pub fn compose_headers(
    spider: &Table<String, String>,
    request: &Table<String, String>,
) -> (sent: Table<String, String>)
    requires
        spider.wf(),
        request.wf(),
    ensures
        sent.wf(),
        texts(sent@) == composed(texts(spider@), texts(request@)),
{
    let mut sent = copy_headers(spider);
    let over = copy_headers(request);
    proof {
        lemma_texts_merged(spider@, request@);
    }
    sent.extend(over);
    if !has_user_agent(&sent) {
        let ghost before = sent@;
        let name = "User-Agent".to_owned();
        let value = DEFAULT_USER_AGENT.to_owned();
        proof {
            lemma_texts_upsert(before, name@, value);
        }
        sent.insert(name, value);
    }
    sent
}

} // verus!
