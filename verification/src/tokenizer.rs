//! Token-id decoding for the local models: vocabulary lookup, optional
//! skipping of special tokens, and the byte-level markers mapped back to
//! whitespace.
//!
//! The vocabulary is parsed from the model's tokenizer file by the host layer
//! and handed in as plain pairs.

use vstd::prelude::*;
use vstd::string::*;
use crate::strutil::chars_to_string;

verus! {

/// The first vocabulary entry for `id`, if any.
pub open spec fn spec_lookup(entries: Seq<(u32, String)>, id: u32) -> Option<Seq<char>>
    decreases entries.len(),
{
    if entries.len() == 0 {
        None
    } else if entries[0].0 == id {
        Some(entries[0].1@)
    } else {
        spec_lookup(entries.drop_first(), id)
    }
}

/// Whether a token is one of the special markers that decoding may skip.
pub open spec fn spec_is_special(t: Seq<char>) -> bool {
    ||| t == "<s>"@
    ||| t == "</s>"@
    ||| t == "<pad>"@
    ||| t == "<unk>"@
    ||| t == "[CLS]"@
    ||| t == "[SEP]"@
    ||| t == "[PAD]"@
    ||| t == "[UNK]"@
    ||| t == "<|endoftext|>"@
}

/// Byte-level markers map back to whitespace: the word-start markers to a
/// space, the newline marker to a newline; every other character stands.
pub open spec fn spec_map_char(c: char) -> char {
    if c as u32 == 0x120 || c as u32 == 0x2581 {
        ' '
    } else if c as u32 == 0x10A {
        '\n'
    } else {
        c
    }
}

/// The decoding of a token id sequence: unknown ids are skipped; special
/// tokens are skipped when asked; the rest is the tokens' characters with
/// markers mapped, in order.
pub open spec fn spec_decode(
    entries: Seq<(u32, String)>,
    ids: Seq<u32>,
    skip_special: bool,
) -> Seq<char>
    decreases ids.len(),
{
    if ids.len() == 0 {
        Seq::empty()
    } else {
        let rest = spec_decode(entries, ids.drop_first(), skip_special);
        match spec_lookup(entries, ids[0]) {
            None => rest,
            Some(token) => if skip_special && spec_is_special(token) {
                rest
            } else {
                token.map_values(|c: char| spec_map_char(c)) + rest
            },
        }
    }
}

/// A plain tokenizer over id-to-token pairs, as parsed from the model's
/// tokenizer file.
pub struct SimpleTokenizer {
    entries: Vec<(u32, String)>,
}

impl SimpleTokenizer {
    /// The vocabulary pairs, in file order.
    pub closed spec fn spec_entries(self) -> Seq<(u32, String)> {
        self.entries@
    }

    /// A tokenizer over the given pairs. Where an id repeats, the first pair
    /// wins.
    pub fn new(entries: Vec<(u32, String)>) -> (r: Self)
        ensures
            r.spec_entries() == entries@,
    {
        SimpleTokenizer { entries }
    }

    /// How many vocabulary entries the tokenizer holds.
    pub fn vocab_size(&self) -> (r: usize)
        ensures
            r == self.spec_entries().len(),
    {
        self.entries.len()
    }

    /// The token for `id`, if the vocabulary has one.
    fn lookup(&self, id: u32) -> (r: Option<&String>)
        ensures
            r is Some <==> spec_lookup(self.spec_entries(), id) is Some,
            r matches Some(t) ==> spec_lookup(self.spec_entries(), id) == Some(t@),
    {
        let n = self.entries.len();
        let mut i: usize = 0;
        proof {
            assert(self.entries@.skip(0) =~= self.entries@);
        }
        while i < n
            invariant
                n == self.entries@.len(),
                i <= n,
                spec_lookup(self.entries@, id) == spec_lookup(
                    self.entries@.skip(i as int),
                    id,
                ),
            decreases n - i,
        {
            proof {
                assert(self.entries@.skip(i as int)[0] == self.entries@[i as int]);
                assert(self.entries@.skip(i as int).drop_first() =~= self.entries@.skip(
                    i as int + 1));
            }
            if self.entries[i].0 == id {
                return Some(&self.entries[i].1);
            }
            i = i + 1;
        }
        proof {
            assert(self.entries@.skip(n as int) =~= Seq::<(u32, String)>::empty());
        }
        None
    }

    /// Decode token ids to text: unknown ids are skipped, special tokens are
    /// skipped when `skip_special_tokens`, and byte-level markers come back
    /// as whitespace.
    pub fn decode(&self, token_ids: &Vec<u32>, skip_special_tokens: bool) -> (r: String)
        ensures
            r@ == spec_decode(self.spec_entries(), token_ids@, skip_special_tokens),
    {
        let mut out: Vec<char> = Vec::new();
        let n = token_ids.len();
        let mut i: usize = 0;
        proof {
            assert(token_ids@.skip(0) =~= token_ids@);
        }
        while i < n
            invariant
                n == token_ids@.len(),
                i <= n,
                spec_decode(self.spec_entries(), token_ids@, skip_special_tokens) == out@
                    + spec_decode(
                    self.spec_entries(),
                    token_ids@.skip(i as int),
                    skip_special_tokens,
                ),
            decreases n - i,
        {
            let ghost ids_rest = token_ids@.skip(i as int);
            proof {
                assert(ids_rest[0] == token_ids@[i as int]);
                assert(ids_rest.drop_first() =~= token_ids@.skip(i as int + 1));
            }
            let id = token_ids[i];
            match self.lookup(id) {
                None => {},
                Some(token) => {
                    let skip_this = skip_special_tokens && is_special_token(token);
                    if !skip_this {
                        let ghost before = out@;
                        let token_str = token.as_str();
                        let len = token_str.unicode_len();
                        let mut j: usize = 0;
                        while j < len
                            invariant
                                len == token_str@.len(),
                                j <= len,
                                out@ == before + token_str@.subrange(0, j as int).map_values(
                                    |c: char| spec_map_char(c),
                                ),
                            decreases len - j,
                        {
                            let c = token_str.get_char(j);
                            let code: u32 = c as u32;
                            let mapped: char = if code == 0x120 || code == 0x2581 {
                                ' '
                            } else if code == 0x10A {
                                '\n'
                            } else {
                                c
                            };
                            out.push(mapped);
                            proof {
                                assert(token_str@.subrange(0, j as int + 1).map_values(
                                    |c: char| spec_map_char(c)) =~= token_str@.subrange(
                                    0,
                                    j as int,
                                ).map_values(|c: char| spec_map_char(c)).push(spec_map_char(
                                    token_str@[j as int])));
                            }
                            j = j + 1;
                        }
                        proof {
                            assert(token_str@.subrange(0, len as int) =~= token_str@);
                            assert(out@ + spec_decode(
                                self.spec_entries(),
                                token_ids@.skip(i as int + 1),
                                skip_special_tokens,
                            ) =~= before + spec_decode(
                                self.spec_entries(),
                                ids_rest,
                                skip_special_tokens,
                            ));
                        }
                    }
                },
            }
            i = i + 1;
        }
        proof {
            assert(token_ids@.skip(n as int) =~= Seq::<u32>::empty());
            assert(out@ + Seq::<char>::empty() =~= out@);
        }
        chars_to_string(&out)
    }
}

/// Whether a token is one of the special markers.
pub fn is_special_token(token: &String) -> (r: bool)
    ensures
        r == spec_is_special(token@),
{
    *token == String::from_str("<s>") || *token == String::from_str("</s>") || *token
        == String::from_str("<pad>") || *token == String::from_str("<unk>") || *token
        == String::from_str("[CLS]") || *token == String::from_str("[SEP]") || *token
        == String::from_str("[PAD]") || *token == String::from_str("[UNK]") || *token
        == String::from_str("<|endoftext|>")
}

} // verus!
