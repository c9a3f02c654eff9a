//! The cache of backend selections: which descriptor file was last chosen
//! for the package manager and for the service manager.
//!
//! The cache lives on disk as a JSON object with one key per selection; a
//! missing key reads back as no selection. Reading and writing the file is
//! the callers' business; this module turns cache values into their JSON
//! text and back.

use vstd::prelude::*;
use vstd::string::StrSliceExecFns;
use vstd::string::StringExecFns;
use crate::errors::Error;
use crate::errors::ErrorV;
use crate::json::escape_spec;
use crate::json::json_opt;
use crate::json::json_opt_spec;
use crate::json::json_string;
use crate::json::json_string_spec;
use crate::json::lemma_parse_member_round;
use crate::json::lemma_skip_ws_id;
use crate::json::opt_str_view;
use crate::json::parse_member;
use crate::json::parse_member_spec;
use crate::json::skip_ws;
use crate::json::skip_ws_spec;

verus! {

/// The mathematical value of a [`Cache`].
pub struct CacheV {
    pub package_manager_configuration_file: Option<Seq<char>>,
    pub service_manager_configuration_file: Option<Seq<char>>,
}

/// The two backend selections remembered between runs. A `Some` field names
/// a file inside the corresponding descriptor directory; `None` means no
/// selection has been cached.
#[derive(Debug, PartialEq)]
pub struct Cache {
    pub package_manager_configuration_file: Option<String>,
    pub service_manager_configuration_file: Option<String>,
}

impl View for Cache {
    type V = CacheV;

    open spec fn view(&self) -> CacheV {
        CacheV {
            package_manager_configuration_file: opt_str_view(
                self.package_manager_configuration_file,
            ),
            service_manager_configuration_file: opt_str_view(
                self.service_manager_configuration_file,
            ),
        }
    }
}

/// The JSON key of the package manager selection.
pub open spec fn pm_key() -> Seq<char> {
    "package_manager_configuration_file"@
}

/// The JSON key of the service manager selection.
pub open spec fn svc_key() -> Seq<char> {
    "service_manager_configuration_file"@
}

/// The JSON text a cache is saved as.
pub open spec fn cache_json_spec(c: CacheV) -> Seq<char> {
    seq!['{'] + json_string_spec(pm_key()) + seq![':'] + json_opt_spec(
        c.package_manager_configuration_file,
    ) + seq![','] + json_string_spec(svc_key()) + seq![':'] + json_opt_spec(
        c.service_manager_configuration_file,
    ) + seq!['}']
}

/// The cache an object with the single member `(k, v)` denotes: the member
/// must use one of the two known keys.
pub open spec fn cache_of_one_member(k: Seq<char>, v: Option<Seq<char>>) -> Option<CacheV> {
    if k == pm_key() {
        Option::Some(
            CacheV {
                package_manager_configuration_file: v,
                service_manager_configuration_file: Option::None,
            },
        )
    } else if k == svc_key() {
        Option::Some(
            CacheV {
                package_manager_configuration_file: Option::None,
                service_manager_configuration_file: v,
            },
        )
    } else {
        Option::None
    }
}

/// The cache an object with the two members `(k1, v1)`, `(k2, v2)` denotes:
/// both known keys, each exactly once.
pub open spec fn cache_of_two_members(
    k1: Seq<char>,
    v1: Option<Seq<char>>,
    k2: Seq<char>,
    v2: Option<Seq<char>>,
) -> Option<CacheV> {
    if k1 == pm_key() && k2 == svc_key() {
        Option::Some(
            CacheV {
                package_manager_configuration_file: v1,
                service_manager_configuration_file: v2,
            },
        )
    } else if k1 == svc_key() && k2 == pm_key() {
        Option::Some(
            CacheV {
                package_manager_configuration_file: v2,
                service_manager_configuration_file: v1,
            },
        )
    } else {
        Option::None
    }
}

/// The cache a JSON text denotes, or nothing when the text is not an object
/// of at most two members over the known keys.
pub open spec fn parse_cache_spec(s: Seq<char>) -> Option<CacheV> {
    let t0 = skip_ws_spec(s);
    if t0.len() > 0 && t0[0] == '{' {
        let after_brace = t0.drop_first();
        let t1 = skip_ws_spec(after_brace);
        if t1.len() > 0 && t1[0] == '}' {
            if skip_ws_spec(t1.drop_first()).len() == 0 {
                Option::Some(
                    CacheV {
                        package_manager_configuration_file: Option::None,
                        service_manager_configuration_file: Option::None,
                    },
                )
            } else {
                Option::None
            }
        } else {
            match parse_member_spec(after_brace) {
                Option::Some(m1) => {
                    let u1 = skip_ws_spec(m1.1);
                    if u1.len() > 0 && u1[0] == '}' {
                        if skip_ws_spec(u1.drop_first()).len() == 0 {
                            cache_of_one_member(m1.0.0, m1.0.1)
                        } else {
                            Option::None
                        }
                    } else if u1.len() > 0 && u1[0] == ',' {
                        match parse_member_spec(u1.drop_first()) {
                            Option::Some(m2) => {
                                let u2 = skip_ws_spec(m2.1);
                                if u2.len() > 0 && u2[0] == '}' && skip_ws_spec(
                                    u2.drop_first(),
                                ).len() == 0 {
                                    cache_of_two_members(m1.0.0, m1.0.1, m2.0.0, m2.0.1)
                                } else {
                                    Option::None
                                }
                            },
                            Option::None => Option::None,
                        }
                    } else {
                        Option::None
                    }
                },
                Option::None => Option::None,
            }
        }
    } else {
        Option::None
    }
}

impl Default for Cache {
    /// The empty cache: no selection remembered for either backend.
    fn default() -> (c: Cache)
        ensures
            c@.package_manager_configuration_file is None,
            c@.service_manager_configuration_file is None,
    {
        Cache {
            package_manager_configuration_file: Option::None,
            service_manager_configuration_file: Option::None,
        }
    }
}

/// The parse failure every malformed cache text maps to.
fn cache_parse_error() -> (e: Error)
    ensures
        e@ matches ErrorV::ParseError(_),
{
    Error::ParseError(String::from_str("cache file is not the JSON object this engine writes"))
}

impl Cache {
    /// Record the resolver's package manager selection, when probing made
    /// one. Returns whether the cache changed and must be saved.
    pub fn note_package_manager_selection(&mut self, selected: Option<String>) -> (changed: bool)
        ensures
            changed == (selected is Some),
            (match selected {
                Option::Some(n) => final(self)@.package_manager_configuration_file
                    == Option::Some(n@),
                Option::None => final(self)@.package_manager_configuration_file == old(
                    self,
                )@.package_manager_configuration_file,
            }),
            final(self)@.service_manager_configuration_file
                == old(self)@.service_manager_configuration_file,
    {
        match selected {
            Option::Some(n) => {
                self.package_manager_configuration_file = Option::Some(n);
                true
            },
            Option::None => false,
        }
    }

    /// Record the resolver's service manager selection, when probing made
    /// one. Returns whether the cache changed and must be saved.
    pub fn note_service_manager_selection(&mut self, selected: Option<String>) -> (changed: bool)
        ensures
            changed == (selected is Some),
            (match selected {
                Option::Some(n) => final(self)@.service_manager_configuration_file
                    == Option::Some(n@),
                Option::None => final(self)@.service_manager_configuration_file == old(
                    self,
                )@.service_manager_configuration_file,
            }),
            final(self)@.package_manager_configuration_file
                == old(self)@.package_manager_configuration_file,
    {
        match selected {
            Option::Some(n) => {
                self.service_manager_configuration_file = Option::Some(n);
                true
            },
            Option::None => false,
        }
    }

    /// The JSON text this cache is saved as.
    pub fn to_json(&self) -> (r: String)
        ensures
            r@ == cache_json_spec(self@),
    {
        let mut out = String::from_str("{");
        let k1 = json_string("package_manager_configuration_file");
        out.append(k1.as_str());
        out.append(":");
        let v1 = json_opt(&self.package_manager_configuration_file);
        out.append(v1.as_str());
        out.append(",");
        let k2 = json_string("service_manager_configuration_file");
        out.append(k2.as_str());
        out.append(":");
        let v2 = json_opt(&self.service_manager_configuration_file);
        out.append(v2.as_str());
        out.append("}");
        proof {
            reveal_strlit("{");
            reveal_strlit(":");
            reveal_strlit(",");
            reveal_strlit("}");
            assert(out@ =~= cache_json_spec(self@));
        }
        out
    }

    /// Read a cache back from its JSON text. A member absent from the
    /// object leaves its selection at `None`; text that is not an object of
    /// the two known keys fails with a parse error.
    pub fn from_json(s: &str) -> (r: Result<Cache, Error>)
        ensures
            match parse_cache_spec(s@) {
                Option::Some(cv) => r matches Ok(c) && c@ == cv,
                Option::None => r matches Err(e) && (e@ matches ErrorV::ParseError(_)),
            },
    {
        let n = s.unicode_len();
        proof {
            assert(s@.skip(0) =~= s@);
        }
        let j0 = skip_ws(s, 0);
        let ghost t0 = skip_ws_spec(s@);
        proof {
            if j0 < n {
                assert(t0[0] == s@[j0 as int]);
                assert(t0.drop_first() =~= s@.skip(j0 as int + 1));
            } else {
                assert(t0 =~= Seq::<char>::empty());
            }
        }
        if !(j0 < n && s.get_char(j0) == '{') {
            return Err(cache_parse_error());
        }
        let j1 = skip_ws(s, j0 + 1);
        let ghost t1 = skip_ws_spec(s@.skip(j0 as int + 1));
        proof {
            if j1 < n {
                assert(t1[0] == s@[j1 as int]);
                assert(t1.drop_first() =~= s@.skip(j1 as int + 1));
            } else {
                assert(t1 =~= Seq::<char>::empty());
            }
        }
        if j1 < n && s.get_char(j1) == '}' {
            let j2 = skip_ws(s, j1 + 1);
            if j2 == n {
                proof {
                    assert(s@.skip(n as int) =~= Seq::<char>::empty());
                }
                Ok(Cache::default())
            } else {
                Err(cache_parse_error())
            }
        } else {
            match parse_member(s, j0 + 1) {
                Option::Some(m1) => {
                    let ((key1, val1), r1) = m1;
                    let u1 = skip_ws(s, r1);
                    let ghost su1 = skip_ws_spec(s@.skip(r1 as int));
                    proof {
                        if u1 < n {
                            assert(su1[0] == s@[u1 as int]);
                            assert(su1.drop_first() =~= s@.skip(u1 as int + 1));
                        } else {
                            assert(su1 =~= Seq::<char>::empty());
                        }
                    }
                    if u1 < n && s.get_char(u1) == '}' {
                        let end = skip_ws(s, u1 + 1);
                        if end == n {
                            proof {
                                assert(s@.skip(n as int) =~= Seq::<char>::empty());
                            }
                            Cache::assemble_one(key1, val1)
                        } else {
                            Err(cache_parse_error())
                        }
                    } else if u1 < n && s.get_char(u1) == ',' {
                        match parse_member(s, u1 + 1) {
                            Option::Some(m2) => {
                                let ((key2, val2), r2) = m2;
                                let u2 = skip_ws(s, r2);
                                let ghost su2 = skip_ws_spec(s@.skip(r2 as int));
                                proof {
                                    if u2 < n {
                                        assert(su2[0] == s@[u2 as int]);
                                        assert(su2.drop_first() =~= s@.skip(u2 as int + 1));
                                    } else {
                                        assert(su2 =~= Seq::<char>::empty());
                                    }
                                }
                                if u2 < n && s.get_char(u2) == '}' {
                                    let end = skip_ws(s, u2 + 1);
                                    if end == n {
                                        proof {
                                            assert(s@.skip(n as int) =~= Seq::<char>::empty());
                                        }
                                        Cache::assemble_two(key1, val1, key2, val2)
                                    } else {
                                        Err(cache_parse_error())
                                    }
                                } else {
                                    Err(cache_parse_error())
                                }
                            },
                            Option::None => Err(cache_parse_error()),
                        }
                    } else {
                        Err(cache_parse_error())
                    }
                },
                Option::None => Err(cache_parse_error()),
            }
        }
    }

    /// Build the cache a single-member object denotes.
    fn assemble_one(key: String, val: Option<String>) -> (r: Result<Cache, Error>)
        ensures
            match cache_of_one_member(key@, opt_str_view(val)) {
                Option::Some(cv) => r matches Ok(c) && c@ == cv,
                Option::None => r matches Err(e) && (e@ matches ErrorV::ParseError(_)),
            },
    {
        let pm = String::from_str("package_manager_configuration_file");
        let svc = String::from_str("service_manager_configuration_file");
        if key.eq(&pm) {
            Ok(
                Cache {
                    package_manager_configuration_file: val,
                    service_manager_configuration_file: Option::None,
                },
            )
        } else if key.eq(&svc) {
            Ok(
                Cache {
                    package_manager_configuration_file: Option::None,
                    service_manager_configuration_file: val,
                },
            )
        } else {
            Err(cache_parse_error())
        }
    }

    /// Build the cache a two-member object denotes.
    fn assemble_two(key1: String, val1: Option<String>, key2: String, val2: Option<String>) -> (r:
        Result<Cache, Error>)
        ensures
            match cache_of_two_members(key1@, opt_str_view(val1), key2@, opt_str_view(val2)) {
                Option::Some(cv) => r matches Ok(c) && c@ == cv,
                Option::None => r matches Err(e) && (e@ matches ErrorV::ParseError(_)),
            },
    {
        let pm = String::from_str("package_manager_configuration_file");
        let svc = String::from_str("service_manager_configuration_file");
        if key1.eq(&pm) && key2.eq(&svc) {
            Ok(
                Cache {
                    package_manager_configuration_file: val1,
                    service_manager_configuration_file: val2,
                },
            )
        } else if key1.eq(&svc) && key2.eq(&pm) {
            Ok(
                Cache {
                    package_manager_configuration_file: val2,
                    service_manager_configuration_file: val1,
                },
            )
        } else {
            Err(cache_parse_error())
        }
    }
}

/// The contents an empty cache file is created with: the JSON object with
/// no members, and a final newline.
pub fn empty_cache_contents() -> (r: String)
    ensures
        r@ == "{}\n"@,
{
    String::from_str("{}\n")
}

/// A cache object that names only one selection reads back with the other
/// selection left at `None`: a member absent from the JSON is a default,
/// not an error.
pub proof fn lemma_single_member_defaults(k: Seq<char>, v: Option<Seq<char>>)
    requires
        k == pm_key() || k == svc_key(),
    ensures
        parse_cache_spec(
            seq!['{'] + json_string_spec(k) + seq![':'] + json_opt_spec(v) + seq!['}'],
        ) == cache_of_one_member(k, v),
        cache_of_one_member(k, v) is Some,
{
    let s = seq!['{'] + json_string_spec(k) + seq![':'] + json_opt_spec(v) + seq!['}'];
    let close = seq!['}'];
    let member = json_string_spec(k) + seq![':'] + json_opt_spec(v) + close;
    assert(s =~= seq!['{'] + member);
    assert(s[0] == '{');
    lemma_skip_ws_id(s);
    assert(s.drop_first() =~= member);
    assert(member =~= seq!['"'] + (escape_spec(k) + seq!['"'] + (seq![':'] + (json_opt_spec(v)
        + close))));
    assert(member[0] == '"');
    lemma_skip_ws_id(member);
    lemma_parse_member_round(k, v, close);
    assert(close[0] == '}');
    lemma_skip_ws_id(close);
    assert(close.drop_first() =~= Seq::<char>::empty());
    assert(skip_ws_spec(close.drop_first()).len() == 0);
}

/// Saving a cache and loading it back yields the same cache, whatever its
/// selections hold: the JSON writer and reader invert each other.
pub proof fn lemma_cache_round_trip(c: CacheV)
    ensures
        parse_cache_spec(cache_json_spec(c)) == Option::Some(c),
{
    let pm = c.package_manager_configuration_file;
    let svc = c.service_manager_configuration_file;
    let s = cache_json_spec(c);
    let member2 = json_string_spec(svc_key()) + seq![':'] + json_opt_spec(svc);
    let rest1 = seq![','] + (member2 + seq!['}']);
    let after_brace = json_string_spec(pm_key()) + seq![':'] + json_opt_spec(pm) + rest1;
    assert(s =~= seq!['{'] + after_brace);
    assert(s[0] == '{');
    lemma_skip_ws_id(s);
    assert(s.drop_first() =~= after_brace);
    assert(after_brace[0] == '"');
    lemma_skip_ws_id(after_brace);
    lemma_parse_member_round(pm_key(), pm, rest1);
    assert(rest1[0] == ',');
    lemma_skip_ws_id(rest1);
    assert(rest1.drop_first() =~= member2 + seq!['}']);
    lemma_parse_member_round(svc_key(), svc, seq!['}']);
    let close = seq!['}'];
    assert(close[0] == '}');
    lemma_skip_ws_id(close);
    assert(close.drop_first() =~= Seq::<char>::empty());
    assert(skip_ws_spec(close.drop_first()).len() == 0);
}

} // verus!
