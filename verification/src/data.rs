use vstd::prelude::*;

use std::collections::BTreeMap;

use zvariant::serialized::{Context, Data};
use zvariant::LE;

use crate::commands::{command_key, spec_command_key, spec_tag, str_eq, Command};
use crate::errors::GenericError;

verus! {

/// The key-to-value map a run of entries denotes; a later entry with the
/// same key wins.
pub open spec fn entries_map(s: Seq<(String, String)>) -> Map<Seq<char>, Seq<char>>
    decreases s.len(),
{
    if s.len() == 0 {
        Map::empty()
    } else {
        entries_map(s.drop_last()).insert(s.last().0@, s.last().1@)
    }
}

/// No two entries share a key.
pub open spec fn unique_keys(s: Seq<(String, String)>) -> bool {
    forall|i: int, j: int| 0 <= i < j < s.len() ==> s[i].0@ != s[j].0@
}

proof fn lemma_entries_map_index(s: Seq<(String, String)>, i: int)
    requires
        unique_keys(s),
        0 <= i < s.len(),
    ensures
        entries_map(s).contains_key(s[i].0@),
        entries_map(s)[s[i].0@] == s[i].1@,
    decreases s.len(),
{
    if i < s.len() - 1 {
        assert(unique_keys(s.drop_last()));
        lemma_entries_map_index(s.drop_last(), i);
        assert(s[i].0@ != s.last().0@);
    }
}

proof fn lemma_entries_map_absent(s: Seq<(String, String)>, k: Seq<char>)
    requires
        forall|i: int| 0 <= i < s.len() ==> s[i].0@ != k,
    ensures
        !entries_map(s).contains_key(k),
    decreases s.len(),
{
    if s.len() > 0 {
        lemma_entries_map_absent(s.drop_last(), k);
    }
}

proof fn lemma_entries_map_update(s: Seq<(String, String)>, i: int, p: (String, String))
    requires
        unique_keys(s),
        0 <= i < s.len(),
        p.0@ == s[i].0@,
    ensures
        entries_map(s.update(i, p)) == entries_map(s).insert(p.0@, p.1@),
    decreases s.len(),
{
    if i == s.len() - 1 {
        assert(s.update(i, p).drop_last() =~= s.drop_last());
        assert(entries_map(s.drop_last()).insert(s.last().0@, s.last().1@).insert(p.0@, p.1@)
            =~= entries_map(s.drop_last()).insert(p.0@, p.1@));
    } else {
        assert(unique_keys(s.drop_last()));
        lemma_entries_map_update(s.drop_last(), i, p);
        assert(s.update(i, p).drop_last() =~= s.drop_last().update(i, p));
        assert(s.update(i, p).last() == s.last());
        assert(s[i].0@ != s.last().0@);
        assert(entries_map(s.drop_last()).insert(p.0@, p.1@).insert(s.last().0@, s.last().1@)
            =~= entries_map(s.drop_last()).insert(s.last().0@, s.last().1@).insert(
            p.0@,
            p.1@,
        ));
    }
}

/// The decoded wire envelope: a flat key-to-value mapping carrying, for a
/// well-formed command message, at least the command field. Entries are kept
/// with unique keys, so the mapping is exactly the view.
pub struct Message {
    entries: Vec<(String, String)>,
}

impl View for Message {
    type V = Map<Seq<char>, Seq<char>>;

    closed spec fn view(&self) -> Map<Seq<char>, Seq<char>> {
        entries_map(self.entries@)
    }
}

impl Message {
    /// Well-formed: no two entries share a key. `new` establishes it, every
    /// method preserves it.
    pub closed spec fn wf(&self) -> bool {
        unique_keys(self.entries@)
    }

    pub fn new() -> (m: Message)
        ensures
            m@ == Map::<Seq<char>, Seq<char>>::empty(),
            m.wf(),
    {
        Message { entries: Vec::new() }
    }

    /// The value stored under a key, if any; no side effect.
    pub fn get(&self, key: &str) -> (r: Option<&str>)
        requires
            self.wf(),
        ensures
            match r {
                Some(v) => self@.contains_key(key@) && v@ == self@[key@],
                None => !self@.contains_key(key@),
            },
    {
        let n = self.entries.len();
        let mut i: usize = 0;
        while i < n
            invariant
                n == self.entries@.len(),
                i <= n,
                unique_keys(self.entries@),
                forall|j: int| 0 <= j < i ==> self.entries@[j].0@ != key@,
            decreases n - i,
        {
            let pair = &self.entries[i];
            if str_eq(pair.0.as_str(), key) {
                proof {
                    lemma_entries_map_index(self.entries@, i as int);
                }
                return Some(self.entries[i].1.as_str());
            }
            i += 1;
        }
        proof {
            lemma_entries_map_absent(self.entries@, key@);
        }
        None
    }

    /// Stores a value under a key, replacing any prior value there.
    pub fn insert(&mut self, key: &str, value: &str)
        requires
            old(self).wf(),
        ensures
            final(self).wf(),
            final(self)@ == old(self)@.insert(key@, value@),
    {
        let pair = (key.to_owned(), value.to_owned());
        let ghost p: (String, String) = pair;
        let n = self.entries.len();
        let mut i: usize = 0;
        while i < n
            invariant
                n == self.entries@.len(),
                i <= n,
                self.entries@ == old(self).entries@,
                unique_keys(self.entries@),
                p == pair,
                pair.0@ == key@,
                pair.1@ == value@,
                forall|j: int| 0 <= j < i ==> self.entries@[j].0@ != key@,
            decreases n - i,
        {
            let found = str_eq(self.entries[i].0.as_str(), key);
            if found {
                let ghost s0 = self.entries@;
                proof {
                    lemma_entries_map_update(s0, i as int, p);
                }
                self.entries.remove(i);
                self.entries.insert(i, pair);
                proof {
                    assert(self.entries@ =~= s0.update(i as int, p));
                    assert forall|a: int, b: int|
                        0 <= a < b < self.entries@.len() implies self.entries@[a].0@
                        != self.entries@[b].0@ by {
                        assert(s0.update(i as int, p)[a].0@ == s0[a].0@);
                        assert(s0.update(i as int, p)[b].0@ == s0[b].0@);
                    }
                }
                return;
            }
            i += 1;
        }
        let ghost s0 = self.entries@;
        self.entries.push(pair);
        proof {
            assert(self.entries@.drop_last() =~= s0);
            assert forall|a: int, b: int|
                0 <= a < b < self.entries@.len() implies self.entries@[a].0@
                != self.entries@[b].0@ by {
                if b == s0.len() {
                    assert(self.entries@[a].0@ == s0[a].0@);
                    assert(self.entries@[b].0@ == key@);
                }
            }
        }
    }
}

/// The one-entry envelope a client sends: the command's tag under the
/// command key.
pub fn command_message(cmd: Command) -> (m: Message)
    ensures
        m.wf(),
        m@ == Map::<Seq<char>, Seq<char>>::empty().insert(spec_command_key(), spec_tag(cmd)),
{
    let mut m = Message::new();
    let tag = cmd.tag();
    m.insert(command_key(), tag.as_str());
    m
}

/// What the little-endian gvariant encoding of a string map is, if the map
/// encodes at all; a function of the map's contents alone.
pub uninterp spec fn gvariant_bytes(m: Map<Seq<char>, Seq<char>>) -> Option<Seq<u8>>;

/// What a byte string decodes to as a string map under the little-endian
/// gvariant encoding, if it decodes at all; a function of the bytes alone.
pub uninterp spec fn gvariant_value(bytes: Seq<u8>) -> Option<Map<Seq<char>, Seq<char>>>;

/// Relies on zvariant::to_bytes with a little-endian gvariant context. The
/// entries go through an ordered map, so the bytes depend on the message's
/// key-to-value contents alone — the result is `gvariant_bytes` of the view.
#[verifier::external_body]
pub fn encode_data(message: Message) -> (r: Result<Vec<u8>, GenericError>)
    requires
        message.wf(),
    ensures
        match gvariant_bytes(message@) {
            Some(b) => r matches Ok(v) && v@ == b,
            None => r matches Err(e) && e@ == "gvariant encoding"@,
        },
{
    let map: BTreeMap<String, String> = message.entries.into_iter().collect();
    let ctxt = Context::new_gvariant(LE, 0);
    match zvariant::to_bytes(ctxt, &map) {
        Ok(data) => Ok(data.to_vec()),
        Err(_) => Err(GenericError::new("gvariant encoding")),
    }
}

/// Relies on zvariant's serialized::Data::deserialize with a little-endian
/// gvariant context, decoding to an ordered string map — keys unique — so
/// the result is `gvariant_value` of the bytes, and well-formed. Malformed
/// bytes come back as the error, never a panic.
#[verifier::external_body]
pub fn decode_data(binary: &[u8]) -> (r: Result<Message, GenericError>)
    ensures
        match gvariant_value(binary@) {
            Some(m) => r matches Ok(msg) && msg@ == m && msg.wf(),
            None => r matches Err(e) && e@ == "gvariant decoding"@,
        },
{
    let ctxt = Context::new_gvariant(LE, 0);
    let data = Data::new(binary, ctxt);
    match data.deserialize::<BTreeMap<String, String>>() {
        Ok((map, _)) => Ok(Message { entries: map.into_iter().collect() }),
        Err(_) => Err(GenericError::new("gvariant decoding")),
    }
}

} // verus!
