//! Attribute-option parsing and operation-name resolution.
//!
//! The annotation's configuration arrives as a flat token sequence.  The
//! grammar accepted is a comma-separated list of `key = "value"` entries,
//! with an optional trailing comma.  Parsing is deliberately best effort:
//! a sequence that does not match the grammar yields an *empty* mapping, so
//! a malformed option list degrades to "use the default name" instead of
//! failing.  Unrecognized keys are kept in the mapping and simply never
//! consulted; only the key `name` is recognized downstream.

use vstd::prelude::*;
use vstd::string::StringExecFns;

verus! {

/// One raw configuration token, as the annotation site hands it over.
#[derive(Clone, PartialEq, Eq, Debug)]
pub enum AttrToken {
    /// An identifier token, with its text.
    Ident { text: String },
    /// An `=` punctuation token.
    Equals,
    /// A `,` punctuation token.
    Comma,
    /// A string literal, with its unescaped contents.
    Str { value: String },
    /// Any other token.
    Other,
}

/// One parsed `key = "value"` entry.
#[derive(Clone, PartialEq, Eq, Debug)]
pub struct OptionEntry {
    pub key: String,
    pub value: String,
}

/// The parsed option mapping: the entries in source order.  Lookup takes the
/// *last* entry for a key, so a repeated key overwrites an earlier one.
#[derive(Clone, PartialEq, Eq, Debug)]
pub struct AttributeOptions {
    pub entries: Vec<OptionEntry>,
}

/// The abstract content of a list of entries: each entry as a pair of its
/// key's and its value's character sequences.
pub open spec fn entry_views(entries: Seq<OptionEntry>) -> Seq<(Seq<char>, Seq<char>)> {
    entries.map_values(|e: OptionEntry| (e.key@, e.value@))
}

impl View for AttributeOptions {
    type V = Seq<(Seq<char>, Seq<char>)>;

    open spec fn view(&self) -> Seq<(Seq<char>, Seq<char>)> {
        entry_views(self.entries@)
    }
}

/// The grammar: a token sequence parses to a list of key/value pairs when it
/// is a comma-separated list of `Ident Equals Str` entries, possibly with a
/// trailing comma; otherwise it parses to `None`.
pub open spec fn parse_meta(toks: Seq<AttrToken>) -> Option<Seq<(Seq<char>, Seq<char>)>>
    decreases toks.len(),
{
    if toks.len() == 0 {
        Some(Seq::empty())
    } else if toks.len() >= 3 && toks[0] is Ident && toks[1] is Equals && toks[2] is Str {
        let entry = (toks[0]->text@, toks[2]->value@);
        if toks.len() == 3 {
            Some(seq![entry])
        } else if toks[3] is Comma {
            match parse_meta(toks.skip(4)) {
                Some(rest) => Some(seq![entry] + rest),
                None => None,
            }
        } else {
            None
        }
    } else {
        None
    }
}

/// What the best-effort parser produces: the parsed entries, or the empty
/// mapping when the token sequence does not match the grammar.
pub open spec fn options_of(toks: Seq<AttrToken>) -> Seq<(Seq<char>, Seq<char>)> {
    match parse_meta(toks) {
        Some(entries) => entries,
        None => Seq::empty(),
    }
}

/// The value stored for a key: that of the last entry with that key.
pub open spec fn lookup(entries: Seq<(Seq<char>, Seq<char>)>, key: Seq<char>) -> Option<Seq<char>>
    decreases entries.len(),
{
    if entries.len() == 0 {
        None
    } else if entries.last().0 == key {
        Some(entries.last().1)
    } else {
        lookup(entries.drop_last(), key)
    }
}

/// The operation name an annotated function resolves to: the explicit `name`
/// option when one is present, the function's own identifier otherwise.
pub open spec fn resolved_name(opts: Seq<(Seq<char>, Seq<char>)>, ident: Seq<char>) -> Seq<char> {
    match lookup(opts, "name"@) {
        Some(v) => v,
        None => ident,
    }
}

/// Parses the grammar from position `i` on, returning `None` exactly when
/// the remaining tokens do not match it.
fn parse_entries(toks: &Vec<AttrToken>, i: usize) -> (r: Option<Vec<OptionEntry>>)
    requires
        i <= toks@.len(),
    ensures
        match r {
            Some(v) => parse_meta(toks@.skip(i as int)) == Some(entry_views(v@)),
            None => parse_meta(toks@.skip(i as int)) is None,
        },
    decreases toks@.len() - i,
{
    let n: usize = toks.len();
    let ghost rest = toks@.skip(i as int);
    if i == n {
        let v: Vec<OptionEntry> = Vec::new();
        proof {
            assert(rest =~= Seq::<AttrToken>::empty());
            assert(entry_views(v@) =~= Seq::<(Seq<char>, Seq<char>)>::empty());
        }
        Some(v)
    } else if n - i >= 3 {
        proof {
            assert(rest.len() >= 3);
            assert(rest[0] == toks@[i as int]);
            assert(rest[1] == toks@[i as int + 1]);
            assert(rest[2] == toks@[i as int + 2]);
        }
        match (&toks[i], &toks[i + 1], &toks[i + 2]) {
            (AttrToken::Ident { text }, AttrToken::Equals, AttrToken::Str { value }) => {
                let entry = OptionEntry { key: text.clone(), value: value.clone() };
                if n - i == 3 {
                    let mut v: Vec<OptionEntry> = Vec::new();
                    v.push(entry);
                    proof {
                        assert(entry_views(v@) =~= seq![(rest[0]->text@, rest[2]->value@)]);
                    }
                    Some(v)
                } else {
                    proof {
                        assert(rest[3] == toks@[i as int + 3]);
                    }
                    match &toks[i + 3] {
                        AttrToken::Comma => {
                            proof {
                                assert(toks@.skip(i as int + 4) =~= rest.skip(4));
                            }
                            match parse_entries(toks, i + 4) {
                                Some(mut v) => {
                                    let ghost tail_views = entry_views(v@);
                                    v.insert(0, entry);
                                    proof {
                                        assert(entry_views(v@) =~= seq![
                                            (rest[0]->text@, rest[2]->value@),
                                        ] + tail_views);
                                    }
                                    Some(v)
                                },
                                None => None,
                            }
                        },
                        _ => None,
                    }
                }
            },
            _ => None,
        }
    } else {
        None
    }
}

/// Parses the annotation's configuration tokens, best effort: the parsed
/// entries on a well-formed sequence, the empty mapping on anything else.
pub fn parse_attribute_options(toks: &Vec<AttrToken>) -> (r: AttributeOptions)
    ensures
        r@ == options_of(toks@),
{
    proof {
        assert(toks@.skip(0) =~= toks@);
    }
    match parse_entries(toks, 0) {
        Some(entries) => AttributeOptions { entries },
        None => {
            let r = AttributeOptions { entries: Vec::new() };
            proof {
                assert(r@ =~= Seq::<(Seq<char>, Seq<char>)>::empty());
            }
            r
        },
    }
}

impl AttributeOptions {
    /// The value stored for `key`, taking the last entry when a key repeats.
    pub fn get(&self, key: &String) -> (r: Option<String>)
        ensures
            match lookup(self@, key@) {
                Some(v) => r matches Some(s) && s@ == v,
                None => r is None,
            },
    {
        let mut i: usize = self.entries.len();
        proof {
            assert(self.entries@.take(i as int) =~= self.entries@);
        }
        while i > 0
            invariant
                i <= self.entries@.len(),
                lookup(self@, key@) == lookup(entry_views(self.entries@.take(i as int)), key@),
            decreases i,
        {
            let e = &self.entries[i - 1];
            let ghost prefix = entry_views(self.entries@.take(i as int));
            proof {
                assert(prefix.last() == (e.key@, e.value@));
                assert(prefix.drop_last() =~= entry_views(self.entries@.take(i as int - 1)));
            }
            if e.key == *key {
                return Some(e.value.clone());
            }
            i = i - 1;
        }
        proof {
            assert(entry_views(self.entries@.take(0)) =~= Seq::<(Seq<char>, Seq<char>)>::empty());
        }
        None
    }
}

/// Resolves the operation name: the explicit `name` option when present, the
/// function's own identifier otherwise.  In particular a function lacking a
/// `name` option is registered under its identifier, string for string, and
/// one carrying `name = "X"` is registered under `X` regardless of its
/// identifier.
pub fn resolve_operation_name(opts: &AttributeOptions, ident: &String) -> (r: String)
    ensures
        r@ == resolved_name(opts@, ident@),
        lookup(opts@, "name"@) is None ==> r@ == ident@,
        lookup(opts@, "name"@) matches Some(v) ==> r@ == v,
{
    let key = String::from_str("name");
    match opts.get(&key) {
        Some(v) => v,
        None => ident.clone(),
    }
}

} // verus!
