//! The narrow interface to the external script evaluator.
//!
//! Descriptor and configuration files are evaluated elsewhere; what reaches
//! this library is the list of named values the evaluation produced. A value
//! is a string, a list of strings, a list that holds something other than
//! strings (kept apart so the right error can surface), or some other shape.

use vstd::prelude::*;
use vstd::string::StringExecFns;
use crate::errors::Error;
use crate::errors::ErrorV;

verus! {

/// The mathematical value of a [`ScriptValue`].
pub enum ScriptValueV {
    Str(Seq<char>),
    StrList(Seq<Seq<char>>),
    InvalidList,
    Other,
}

/// One value the evaluator produced for a global name.
#[derive(Debug)]
pub enum ScriptValue {
    /// A string.
    Str(String),
    /// A list whose members are all strings.
    StrList(Vec<String>),
    /// A list with a member that is not a string.
    InvalidList,
    /// Any other shape of value.
    Other,
}

impl View for ScriptValue {
    type V = ScriptValueV;

    open spec fn view(&self) -> ScriptValueV {
        match self {
            ScriptValue::Str(s) => ScriptValueV::Str(s@),
            ScriptValue::StrList(l) => ScriptValueV::StrList(l.deep_view()),
            ScriptValue::InvalidList => ScriptValueV::InvalidList,
            ScriptValue::Other => ScriptValueV::Other,
        }
    }
}

/// The named values one evaluated script produced.
#[derive(Debug)]
pub struct ScriptValues {
    pub entries: Vec<(String, ScriptValue)>,
}

impl View for ScriptValues {
    type V = Seq<(Seq<char>, ScriptValueV)>;

    open spec fn view(&self) -> Seq<(Seq<char>, ScriptValueV)> {
        Seq::new(self.entries@.len(), |i: int| (self.entries@[i].0@, self.entries@[i].1@))
    }
}

/// The value bound to `name`: the first entry with that name, if any.
pub open spec fn lookup_spec(m: Seq<(Seq<char>, ScriptValueV)>, name: Seq<char>) -> Option<
    ScriptValueV,
>
    decreases m.len(),
{
    if m.len() == 0 {
        Option::None
    } else if m[0].0 == name {
        Option::Some(m[0].1)
    } else {
        lookup_spec(m.drop_first(), name)
    }
}

impl ScriptValues {
    /// A value set with no entries.
    pub fn new() -> (r: ScriptValues)
        ensures
            r@ =~= Seq::<(Seq<char>, ScriptValueV)>::empty(),
    {
        ScriptValues { entries: Vec::new() }
    }

    /// Bind `name` to `value` (appended after the existing entries; an
    /// earlier binding of the same name keeps priority).
    pub fn push(&mut self, name: String, value: ScriptValue)
        ensures
            final(self)@ =~= old(self)@.push((name@, value@)),
    {
        self.entries.push((name, value));
    }

    /// Look `name` up among the entries.
    pub fn get(&self, name: &String) -> (r: Option<&ScriptValue>)
        ensures
            match lookup_spec(self@, name@) {
                Option::Some(v) => r matches Option::Some(rv) && rv@ == v,
                Option::None => r is None,
            },
    {
        let mut i: usize = 0;
        proof {
            assert(self@.skip(0) =~= self@);
        }
        while i < self.entries.len()
            invariant
                i <= self.entries@.len(),
                self@.len() == self.entries@.len(),
                lookup_spec(self@.skip(i as int), name@) == lookup_spec(self@, name@),
            decreases self.entries@.len() - i,
        {
            proof {
                assert(self@.skip(i as int).drop_first() =~= self@.skip(i as int + 1));
                assert(self@.skip(i as int)[0] == self@[i as int]);
            }
            if self.entries[i].0.eq(name) {
                return Option::Some(&self.entries[i].1);
            }
            i = i + 1;
        }
        proof {
            assert(self@.skip(self@.len() as int) =~= Seq::<(Seq<char>, ScriptValueV)>::empty());
        }
        Option::None
    }
}

/// Copy a vector of strings.
pub fn clone_string_vec(v: &Vec<String>) -> (r: Vec<String>)
    ensures
        r.deep_view() == v.deep_view(),
{
    let mut out: Vec<String> = Vec::new();
    let mut i: usize = 0;
    while i < v.len()
        invariant
            i <= v@.len(),
            out.deep_view() =~= v.deep_view().take(i as int),
        decreases v@.len() - i,
    {
        let ghost pre = out.deep_view();
        let s = v[i].clone();
        out.push(s);
        proof {
            assert(out.deep_view() =~= pre.push(v.deep_view()[i as int]));
            assert(v.deep_view().take(i as int + 1) =~= pre.push(v.deep_view()[i as int]));
        }
        i = i + 1;
    }
    proof {
        assert(v.deep_view().take(v@.len() as int) =~= v.deep_view());
    }
    out
}

/// The value a mandatory string field takes: the bound string, or
/// `MissingField` when the name is unbound, or `TypeMismatch` when it is
/// bound to anything but a string.
pub open spec fn required_string_spec(
    m: Seq<(Seq<char>, ScriptValueV)>,
    name: Seq<char>,
) -> Result<Seq<char>, ErrorV> {
    match lookup_spec(m, name) {
        Option::None => Result::Err(ErrorV::MissingField(name)),
        Option::Some(ScriptValueV::Str(s)) => Result::Ok(s),
        Option::Some(_) => Result::Err(ErrorV::TypeMismatch(name)),
    }
}

/// Extract the mandatory string field `name`.
pub fn required_string(values: &ScriptValues, name: &str) -> (r: Result<String, Error>)
    ensures
        (match required_string_spec(values@, name@) {
            Result::Ok(s) => r matches Ok(x) && x@ == s,
            Result::Err(e) => r matches Err(x) && x@ == e,
        }),
{
    let name_string = name.to_owned();
    match values.get(&name_string) {
        Option::None => Err(Error::MissingField(name_string)),
        Option::Some(ScriptValue::Str(s)) => Ok(s.clone()),
        Option::Some(_) => Err(Error::TypeMismatch(name_string)),
    }
}

/// The value an optional list field takes: the bound list, an empty list
/// when the name is unbound or bound to a non-list, or `TypeMismatch` when
/// it is bound to a list holding something other than strings.
pub open spec fn optional_list_spec(m: Seq<(Seq<char>, ScriptValueV)>, name: Seq<char>) -> Result<
    Seq<Seq<char>>,
    ErrorV,
> {
    match lookup_spec(m, name) {
        Option::Some(ScriptValueV::StrList(l)) => Result::Ok(l),
        Option::Some(ScriptValueV::InvalidList) => Result::Err(ErrorV::TypeMismatch(name)),
        _ => Result::Ok(Seq::empty()),
    }
}

/// Extract the optional list field `name`, defaulting to an empty list.
pub fn optional_list(values: &ScriptValues, name: &str) -> (r: Result<Vec<String>, Error>)
    ensures
        (match optional_list_spec(values@, name@) {
            Result::Ok(l) => r matches Ok(x) && x.deep_view() == l,
            Result::Err(e) => r matches Err(x) && x@ == e,
        }),
{
    let name_string = name.to_owned();
    match values.get(&name_string) {
        Option::Some(ScriptValue::StrList(l)) => Ok(clone_string_vec(l)),
        Option::Some(ScriptValue::InvalidList) => Err(Error::TypeMismatch(name_string)),
        _ => {
            let empty: Vec<String> = Vec::new();
            proof {
                assert(empty.deep_view() =~= Seq::<Seq<char>>::empty());
            }
            Ok(empty)
        },
    }
}

} // verus!
