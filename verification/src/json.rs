//! The JSON values that request bodies and response envelopes are made of.
//!
//! `JsonValue` is the executable representation; its view `JVal` is the
//! mathematical one that every contract speaks of. Response text is turned
//! into a `JsonValue` by `parse_json_text`; everything that reads or builds
//! a `JsonValue` is verified against `JVal`.

use vstd::prelude::*;

verus! {

/// The mathematical model of a JSON value. Object members keep their wire
/// order; a lookup takes the first member with the wanted name, so an
/// object with a repeated name reads as its first occurrence.
pub enum JVal {
    /// JSON `null`.
    Null,
    /// A JSON boolean.
    Bool(bool),
    /// A JSON number that is a non-negative integer within `u64`.
    UInt(u64),
    /// Any other JSON number, kept as its decimal text.
    OtherNum(Seq<char>),
    /// A JSON string.
    Str(Seq<char>),
    /// A JSON array.
    Arr(Seq<JVal>),
    /// A JSON object: a sequence of name/value members.
    Obj(Seq<(Seq<char>, JVal)>),
}

/// The executable representation of a JSON value.
#[derive(Debug)]
pub enum JsonValue {
    /// JSON `null`.
    Null,
    /// A JSON boolean.
    Bool(bool),
    /// A JSON number that is a non-negative integer within `u64`.
    UInt(u64),
    /// Any other JSON number, kept as its decimal text.
    OtherNum(String),
    /// A JSON string.
    Str(String),
    /// A JSON array.
    Arr(Vec<JsonValue>),
    /// A JSON object: a vector of name/value members.
    Obj(Vec<(String, JsonValue)>),
}

/// The view of an executable JSON value.
pub open spec fn jval_of(v: JsonValue) -> JVal
    decreases v,
{
    match v {
        JsonValue::Null => JVal::Null,
        JsonValue::Bool(b) => JVal::Bool(b),
        JsonValue::UInt(u) => JVal::UInt(u),
        JsonValue::OtherNum(s) => JVal::OtherNum(s@),
        JsonValue::Str(s) => JVal::Str(s@),
        JsonValue::Arr(vs) => JVal::Arr(jvals_of(vs@)),
        JsonValue::Obj(ps) => JVal::Obj(jmembers_of(ps@)),
    }
}

/// The views of the elements of a JSON array.
pub open spec fn jvals_of(s: Seq<JsonValue>) -> Seq<JVal>
    decreases s,
{
    Seq::new(
        s.len(),
        |i: int|
            if 0 <= i < s.len() {
                jval_of(s[i])
            } else {
                JVal::Null
            },
    )
}

/// The views of the members of a JSON object.
pub open spec fn jmembers_of(s: Seq<(String, JsonValue)>) -> Seq<(Seq<char>, JVal)>
    decreases s,
{
    Seq::new(
        s.len(),
        |i: int|
            if 0 <= i < s.len() {
                (s[i].0@, jval_of(s[i].1))
            } else {
                (Seq::empty(), JVal::Null)
            },
    )
}

impl View for JsonValue {
    type V = JVal;

    open spec fn view(&self) -> JVal {
        jval_of(*self)
    }
}

impl DeepView for JsonValue {
    type V = JVal;

    open spec fn deep_view(&self) -> JVal {
        jval_of(*self)
    }
}

/// The value of the first member of `ps` named `name`, if any.
pub open spec fn jlookup(ps: Seq<(Seq<char>, JVal)>, name: Seq<char>) -> Option<JVal>
    decreases ps,
{
    if ps.len() == 0 {
        None
    } else if ps[0].0 == name {
        Some(ps[0].1)
    } else {
        jlookup(ps.drop_first(), name)
    }
}

/// A lookup finds the member at the first index whose name matches.
pub proof fn lemma_jlookup_at(ps: Seq<(Seq<char>, JVal)>, name: Seq<char>, i: int)
    requires
        0 <= i < ps.len(),
        ps[i].0 == name,
        forall|j: int| 0 <= j < i ==> ps[j].0 != name,
    ensures
        jlookup(ps, name) == Some(ps[i].1),
    decreases i,
{
    if i > 0 {
        lemma_jlookup_at(ps.drop_first(), name, i - 1);
    }
}

/// A lookup finds nothing when no member carries the name.
pub proof fn lemma_jlookup_none(ps: Seq<(Seq<char>, JVal)>, name: Seq<char>)
    requires
        forall|j: int| 0 <= j < ps.len() ==> ps[j].0 != name,
    ensures
        jlookup(ps, name) is None,
    decreases ps.len(),
{
    if ps.len() > 0 {
        lemma_jlookup_none(ps.drop_first(), name);
    }
}

/// The member named `name`, which must be a `u64` number.
pub open spec fn req_u64(ps: Seq<(Seq<char>, JVal)>, name: Seq<char>) -> Option<u64> {
    match jlookup(ps, name) {
        Some(JVal::UInt(u)) => Some(u),
        _ => None,
    }
}

/// The member named `name`, which must be a number within `u32`.
pub open spec fn req_u32(ps: Seq<(Seq<char>, JVal)>, name: Seq<char>) -> Option<u32> {
    match jlookup(ps, name) {
        Some(JVal::UInt(u)) => if u <= u32::MAX as u64 {
            Some(u as u32)
        } else {
            None
        },
        _ => None,
    }
}

/// The member named `name`, which must be a boolean.
pub open spec fn req_bool(ps: Seq<(Seq<char>, JVal)>, name: Seq<char>) -> Option<bool> {
    match jlookup(ps, name) {
        Some(JVal::Bool(b)) => Some(b),
        _ => None,
    }
}

/// The member named `name`, which must be a string.
pub open spec fn req_str(ps: Seq<(Seq<char>, JVal)>, name: Seq<char>) -> Option<Seq<char>> {
    match jlookup(ps, name) {
        Some(JVal::Str(s)) => Some(s),
        _ => None,
    }
}

/// An optional `u64` member: absent or `null` reads as `None`; any value of
/// another shape is a failure, the outer `None`.
pub open spec fn opt_u64(ps: Seq<(Seq<char>, JVal)>, name: Seq<char>) -> Option<Option<u64>> {
    match jlookup(ps, name) {
        None => Some(None),
        Some(JVal::Null) => Some(None),
        Some(JVal::UInt(u)) => Some(Some(u)),
        Some(_) => None,
    }
}

/// An optional boolean member, read as `opt_u64` is.
pub open spec fn opt_bool(ps: Seq<(Seq<char>, JVal)>, name: Seq<char>) -> Option<Option<bool>> {
    match jlookup(ps, name) {
        None => Some(None),
        Some(JVal::Null) => Some(None),
        Some(JVal::Bool(b)) => Some(Some(b)),
        Some(_) => None,
    }
}

/// An optional string member, read as `opt_u64` is.
pub open spec fn opt_str(ps: Seq<(Seq<char>, JVal)>, name: Seq<char>) -> Option<
    Option<Seq<char>>,
> {
    match jlookup(ps, name) {
        None => Some(None),
        Some(JVal::Null) => Some(None),
        Some(JVal::Str(s)) => Some(Some(s)),
        Some(_) => None,
    }
}

/// An optional member of any shape: absent or `null` reads as `None`.
pub open spec fn opt_jval(ps: Seq<(Seq<char>, JVal)>, name: Seq<char>) -> Option<Option<JVal>> {
    match jlookup(ps, name) {
        None => Some(None),
        Some(JVal::Null) => Some(None),
        Some(v) => Some(Some(v)),
    }
}

/// An optional string member that the wire spells under either of two
/// names; the first name wins where both occur.
pub open spec fn alias_opt_str(
    ps: Seq<(Seq<char>, JVal)>,
    name: Seq<char>,
    alias: Seq<char>,
) -> Option<Option<Seq<char>>> {
    if jlookup(ps, name) is Some {
        opt_str(ps, name)
    } else {
        opt_str(ps, alias)
    }
}

/// What parsing a piece of text as JSON yields: the parse is a function of
/// the text alone. Numbers that are non-negative integers within `u64` come
/// back as `UInt`; any other number keeps its decimal text as `OtherNum`.
pub uninterp spec fn parsed_json(s: Seq<char>) -> Option<JVal>;

/// Relies on `serde_json::from_str::<serde_json::Value>` to parse response
/// text; the parsed tree is carried over member by member. The `Err` text is
/// the parser's own description of the failure, of which nothing is stated.
#[verifier::external_body]
pub fn parse_json_text(text: &str) -> (r: Result<JsonValue, String>)
    ensures
        r matches Ok(v) ==> parsed_json(text@) == Some(v@),
        r is Err ==> parsed_json(text@) is None,
{
    match serde_json::from_str::<serde_json::Value>(text) {
        Ok(v) => Ok(of_serde(&v)),
        Err(e) => Err(e.to_string()),
    }
}

impl JsonValue {
    /// A deep copy, equal to the original in view.
    #[verifier::loop_isolation(false)]
    pub fn dup(&self) -> (r: JsonValue)
        ensures
            r@ == self@,
        decreases *self,
    {
        match self {
            JsonValue::Null => JsonValue::Null,
            JsonValue::Bool(b) => JsonValue::Bool(*b),
            JsonValue::UInt(u) => JsonValue::UInt(*u),
            JsonValue::OtherNum(s) => JsonValue::OtherNum(s.clone()),
            JsonValue::Str(s) => JsonValue::Str(s.clone()),
            JsonValue::Arr(vs) => {
                let n = vs.len();
                let mut out: Vec<JsonValue> = Vec::new();
                let mut i: usize = 0;
                while i < n
                    invariant
                        i <= n,
                        n == vs.len(),
                        out.len() == i,
                        forall|k: int| 0 <= k < i ==> jvals_of(out@)[k] == jvals_of(vs@)[k],
                    decreases n - i,
                {
                    proof {
                        assert(decreases_to!(*self => self->Arr_0));
                        assert(self->Arr_0 == *vs);
                        assert(decreases_to!(*vs => vs@));
                        assert(decreases_to!(vs@ => vs@[i as int]));
                    }
                    let e = vs[i].dup();
                    out.push(e);
                    i += 1;
                }
                proof {
                    assert(jvals_of(out@) =~= jvals_of(vs@));
                }
                JsonValue::Arr(out)
            },
            JsonValue::Obj(ps) => {
                let n = ps.len();
                let mut out: Vec<(String, JsonValue)> = Vec::new();
                let mut i: usize = 0;
                while i < n
                    invariant
                        i <= n,
                        n == ps.len(),
                        out.len() == i,
                        forall|k: int| 0 <= k < i ==> jmembers_of(out@)[k] == jmembers_of(ps@)[k],
                    decreases n - i,
                {
                    proof {
                        assert(decreases_to!(*self => self->Obj_0));
                        assert(self->Obj_0 == *ps);
                        assert(decreases_to!(*ps => ps@));
                        assert(decreases_to!(ps@ => ps@[i as int]));
                        assert(decreases_to!(ps@[i as int] => ps@[i as int].1));
                    }
                    let v = ps[i].1.dup();
                    let k = ps[i].0.clone();
                    out.push((k, v));
                    i += 1;
                }
                proof {
                    assert(jmembers_of(out@) =~= jmembers_of(ps@));
                }
                JsonValue::Obj(out)
            },
        }
    }
}

impl Clone for JsonValue {
    /// A deep copy, equal to the original in view.
    fn clone(&self) -> (r: JsonValue)
        ensures
            r@ == self@,
    {
        self.dup()
    }
}

/// Finds the first member of `ps` named `name`, as `jlookup` reads it.
pub fn obj_lookup<'a>(ps: &'a Vec<(String, JsonValue)>, name: &str) -> (r: Option<&'a JsonValue>)
    ensures
        r matches Some(v) ==> jlookup(jmembers_of(ps@), name@) == Some(v@),
        r is None ==> jlookup(jmembers_of(ps@), name@) is None,
{
    let want: String = name.to_owned();
    let n = ps.len();
    let mut i: usize = 0;
    while i < n
        invariant
            i <= n,
            n == ps.len(),
            want@ == name@,
            forall|j: int| 0 <= j < i ==> jmembers_of(ps@)[j].0 != name@,
        decreases n - i,
    {
        if ps[i].0 == want {
            proof {
                lemma_jlookup_at(jmembers_of(ps@), name@, i as int);
            }
            return Some(&ps[i].1);
        }
        i += 1;
    }
    proof {
        lemma_jlookup_none(jmembers_of(ps@), name@);
    }
    None
}

/// Reads a required `u64` member.
pub fn get_req_u64(ps: &Vec<(String, JsonValue)>, name: &str) -> (r: Option<u64>)
    ensures
        r == req_u64(jmembers_of(ps@), name@),
{
    match obj_lookup(ps, name) {
        Some(JsonValue::UInt(u)) => Some(*u),
        _ => None,
    }
}

/// Reads a required member that must be a number within `u32`.
pub fn get_req_u32(ps: &Vec<(String, JsonValue)>, name: &str) -> (r: Option<u32>)
    ensures
        r == req_u32(jmembers_of(ps@), name@),
{
    match obj_lookup(ps, name) {
        Some(JsonValue::UInt(u)) => if *u <= u32::MAX as u64 {
            Some(*u as u32)
        } else {
            None
        },
        _ => None,
    }
}

/// Reads a required boolean member.
pub fn get_req_bool(ps: &Vec<(String, JsonValue)>, name: &str) -> (r: Option<bool>)
    ensures
        r == req_bool(jmembers_of(ps@), name@),
{
    match obj_lookup(ps, name) {
        Some(JsonValue::Bool(b)) => Some(*b),
        _ => None,
    }
}

/// Reads a required string member.
pub fn get_req_string(ps: &Vec<(String, JsonValue)>, name: &str) -> (r: Option<String>)
    ensures
        r matches Some(s) ==> req_str(jmembers_of(ps@), name@) == Some(s@),
        r is None <==> req_str(jmembers_of(ps@), name@) is None,
{
    match obj_lookup(ps, name) {
        Some(JsonValue::Str(s)) => Some(s.clone()),
        _ => None,
    }
}

/// Reads an optional `u64` member; the outer `None` is a shape failure.
pub fn get_opt_u64(ps: &Vec<(String, JsonValue)>, name: &str) -> (r: Option<Option<u64>>)
    ensures
        r == opt_u64(jmembers_of(ps@), name@),
{
    match obj_lookup(ps, name) {
        None => Some(None),
        Some(JsonValue::Null) => Some(None),
        Some(JsonValue::UInt(u)) => Some(Some(*u)),
        Some(_) => None,
    }
}

/// Reads an optional boolean member; the outer `None` is a shape failure.
pub fn get_opt_bool(ps: &Vec<(String, JsonValue)>, name: &str) -> (r: Option<Option<bool>>)
    ensures
        r == opt_bool(jmembers_of(ps@), name@),
{
    match obj_lookup(ps, name) {
        None => Some(None),
        Some(JsonValue::Null) => Some(None),
        Some(JsonValue::Bool(b)) => Some(Some(*b)),
        Some(_) => None,
    }
}

/// Reads an optional string member; the outer `None` is a shape failure.
pub fn get_opt_string(ps: &Vec<(String, JsonValue)>, name: &str) -> (r: Option<Option<String>>)
    ensures
        r matches Some(o) ==> (match o {
            Some(s) => opt_str(jmembers_of(ps@), name@) == Some(Some(s@)),
            None => opt_str(jmembers_of(ps@), name@) == Some(None::<Seq<char>>),
        }),
        r is None <==> opt_str(jmembers_of(ps@), name@) is None,
{
    match obj_lookup(ps, name) {
        None => Some(None),
        Some(JsonValue::Null) => Some(None),
        Some(JsonValue::Str(s)) => Some(Some(s.clone())),
        Some(_) => None,
    }
}

/// Reads an optional member of any shape; `null` and absence read alike.
pub fn get_opt_json(ps: &Vec<(String, JsonValue)>, name: &str) -> (r: Option<Option<JsonValue>>)
    ensures
        r matches Some(o) ==> (match o {
            Some(v) => opt_jval(jmembers_of(ps@), name@) == Some(Some(v@)),
            None => opt_jval(jmembers_of(ps@), name@) == Some(None::<JVal>),
        }),
        r is None <==> opt_jval(jmembers_of(ps@), name@) is None,
{
    match obj_lookup(ps, name) {
        None => Some(None),
        Some(JsonValue::Null) => Some(None),
        Some(v) => Some(Some(v.dup())),
    }
}

/// Reads an optional string member that the wire spells under either of
/// two names, the first winning where both occur.
pub fn get_alias_opt_string(ps: &Vec<(String, JsonValue)>, name: &str, alias: &str) -> (r: Option<
    Option<String>,
>)
    ensures
        r matches Some(o) ==> (match o {
            Some(s) => alias_opt_str(jmembers_of(ps@), name@, alias@) == Some(Some(s@)),
            None => alias_opt_str(jmembers_of(ps@), name@, alias@) == Some(None::<Seq<char>>),
        }),
        r is None <==> alias_opt_str(jmembers_of(ps@), name@, alias@) is None,
{
    match obj_lookup(ps, name) {
        Some(_) => get_opt_string(ps, name),
        None => get_opt_string(ps, alias),
    }
}

/// A required string member that the wire spells under either of two
/// names; the first name wins where both occur.
pub open spec fn alias_req_str(
    ps: Seq<(Seq<char>, JVal)>,
    name: Seq<char>,
    alias: Seq<char>,
) -> Option<Seq<char>> {
    if jlookup(ps, name) is Some {
        req_str(ps, name)
    } else {
        req_str(ps, alias)
    }
}

/// Reads a required string member that the wire spells under either of
/// two names, the first winning where both occur.
pub fn get_alias_req_string(ps: &Vec<(String, JsonValue)>, name: &str, alias: &str) -> (r: Option<
    String,
>)
    ensures
        r matches Some(s) ==> alias_req_str(jmembers_of(ps@), name@, alias@) == Some(s@),
        r is None <==> alias_req_str(jmembers_of(ps@), name@, alias@) is None,
{
    match obj_lookup(ps, name) {
        Some(_) => get_req_string(ps, name),
        None => get_req_string(ps, alias),
    }
}

/// Either spelling of an aliased member fills the same logical field: a
/// record carrying the string under the first name reads the same as one
/// carrying it under the second name alone.
pub proof fn lemma_alias_either_spelling(
    ps: Seq<(Seq<char>, JVal)>,
    name: Seq<char>,
    alias: Seq<char>,
    s: Seq<char>,
)
    ensures
        jlookup(ps, name) == Some(JVal::Str(s)) ==> alias_opt_str(ps, name, alias) == Some(
            Some(s),
        ),
        (jlookup(ps, name) is None && jlookup(ps, alias) == Some(JVal::Str(s)))
            ==> alias_opt_str(ps, name, alias) == Some(Some(s)),
        jlookup(ps, name) == Some(JVal::Str(s)) ==> alias_req_str(ps, name, alias) == Some(s),
        (jlookup(ps, name) is None && jlookup(ps, alias) == Some(JVal::Str(s)))
            ==> alias_req_str(ps, name, alias) == Some(s),
{
}

/// A `null` for an absent optional number, the number itself else.
pub open spec fn jnum_opt(o: Option<u64>) -> JVal {
    match o {
        Some(u) => JVal::UInt(u),
        None => JVal::Null,
    }
}

/// A `null` for an absent optional string, the string itself else.
pub open spec fn jstr_opt(o: Option<Seq<char>>) -> JVal {
    match o {
        Some(s) => JVal::Str(s),
        None => JVal::Null,
    }
}

/// A `null` for an absent optional boolean, the boolean itself else.
pub open spec fn jbool_opt(o: Option<bool>) -> JVal {
    match o {
        Some(b) => JVal::Bool(b),
        None => JVal::Null,
    }
}

/// A `null` for an absent optional value, the value itself else.
pub open spec fn jany_opt(o: Option<JVal>) -> JVal {
    match o {
        Some(v) => v,
        None => JVal::Null,
    }
}

/// Builds the JSON value of an optional number.
pub fn jv_num_opt(o: &Option<u64>) -> (r: JsonValue)
    ensures
        r@ == jnum_opt(*o),
{
    match o {
        Some(u) => JsonValue::UInt(*u),
        None => JsonValue::Null,
    }
}

/// Builds the JSON value of an optional string.
pub fn jv_str_opt(o: &Option<String>) -> (r: JsonValue)
    ensures
        r@ == jstr_opt(o.deep_view()),
{
    match o {
        Some(s) => JsonValue::Str(s.clone()),
        None => JsonValue::Null,
    }
}

/// Builds the JSON value of an optional boolean.
pub fn jv_bool_opt(o: &Option<bool>) -> (r: JsonValue)
    ensures
        r@ == jbool_opt(*o),
{
    match o {
        Some(b) => JsonValue::Bool(*b),
        None => JsonValue::Null,
    }
}

/// Builds the JSON value of an optional value of any shape.
pub fn jv_any_opt(o: &Option<JsonValue>) -> (r: JsonValue)
    ensures
        r@ == jany_opt(o.deep_view()),
{
    match o {
        Some(v) => v.dup(),
        None => JsonValue::Null,
    }
}

/// The parsed tree type of `serde_json`, opaque to the library.
#[verifier::external_type_specification]
#[verifier::external_body]
pub struct ExSerdeValue(serde_json::Value);

/// Relies on the structure of `serde_json::Value`: each variant is carried
/// to the matching `JsonValue` variant, member by member.
#[verifier::external_body]
fn of_serde(v: &serde_json::Value) -> JsonValue {
    match v {
        serde_json::Value::Null => JsonValue::Null,
        serde_json::Value::Bool(b) => JsonValue::Bool(*b),
        serde_json::Value::Number(n) => match n.as_u64() {
            Some(u) => JsonValue::UInt(u),
            None => JsonValue::OtherNum(n.to_string()),
        },
        serde_json::Value::String(s) => JsonValue::Str(s.clone()),
        serde_json::Value::Array(a) => JsonValue::Arr(a.iter().map(of_serde).collect()),
        serde_json::Value::Object(m) => JsonValue::Obj(
            m.iter().map(|(k, x)| (k.clone(), of_serde(x))).collect(),
        ),
    }
}

} // verus!
