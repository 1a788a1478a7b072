use vstd::prelude::*;

use crate::error::{Error, ErrorV};

verus! {

/// A JSON document. Objects keep their entries in order, duplicates included,
/// so that the decoders can see every key that was written.
#[derive(Debug, PartialEq)]
pub enum Json {
    Null,
    Bool(bool),
    /// A number, as its literal text.
    Number(String),
    Str(String),
    Array(Vec<Json>),
    Object(Vec<(String, Json)>),
}

/// Mathematical model of a JSON document.
pub enum JsonV {
    Null,
    Bool(bool),
    Number(Seq<char>),
    Str(Seq<char>),
    Array(Seq<JsonV>),
    Object(Seq<(Seq<char>, JsonV)>),
}

pub open spec fn json_view(j: Json) -> JsonV
    decreases j,
{
    match j {
        Json::Null => JsonV::Null,
        Json::Bool(b) => JsonV::Bool(b),
        Json::Number(n) => JsonV::Number(n@),
        Json::Str(s) => JsonV::Str(s@),
        Json::Array(v) => JsonV::Array(
            Seq::new(v@.len(), |i: int| if 0 <= i < v@.len() { json_view(v@[i]) } else { JsonV::Null }),
        ),
        Json::Object(v) => JsonV::Object(
            Seq::new(
                v@.len(),
                |i: int| if 0 <= i < v@.len() { (v@[i].0@, json_view(v@[i].1)) } else { (Seq::empty(), JsonV::Null) },
            ),
        ),
    }
}

impl View for Json {
    type V = JsonV;

    open spec fn view(&self) -> JsonV {
        json_view(*self)
    }
}

} // verus!

verus! {

/// The model of an object's entries.
pub open spec fn entries_view(v: Seq<(String, Json)>) -> Seq<(Seq<char>, JsonV)> {
    Seq::new(
        v.len(),
        |i: int| if 0 <= i < v.len() { (v[i].0@, json_view(v[i].1)) } else { (Seq::empty(), JsonV::Null) },
    )
}

pub open spec fn opt_json_view(o: Option<Json>) -> Option<JsonV> {
    match o {
        Some(j) => Some(json_view(j)),
        None => None,
    }
}

pub open spec fn key_views(keys: Seq<String>) -> Seq<Seq<char>> {
    keys.map_values(|k: String| k@)
}

/// No key occurs twice in `keys`.
pub open spec fn distinct(keys: Seq<Seq<char>>) -> bool {
    forall|i: int, j: int|
        0 <= i < keys.len() && 0 <= j < keys.len() && i != j ==> #[trigger] keys[i] != #[trigger] keys[j]
}

/// Position of `k` among `keys`, or -1.
pub open spec fn key_pos(keys: Seq<Seq<char>>, k: Seq<char>) -> int {
    if exists|i: int| 0 <= i < keys.len() && keys[i] == k {
        choose|i: int| 0 <= i < keys.len() && keys[i] == k
    } else {
        -1
    }
}

/// Sorts the first `n` entries of an object into one slot per known key,
/// failing at the first entry whose key is unknown or already seen.
pub open spec fn collect(obj: Seq<(Seq<char>, JsonV)>, keys: Seq<Seq<char>>, n: nat) -> Result<
    Seq<Option<JsonV>>,
    ErrorV,
>
    decreases n,
{
    if n == 0 {
        Ok(Seq::new(keys.len(), |i: int| None))
    } else {
        match collect(obj, keys, (n - 1) as nat) {
            Err(e) => Err(e),
            Ok(vals) => {
                let k = obj[n - 1].0;
                let p = key_pos(keys, k);
                if p < 0 {
                    Err(ErrorV::UnknownField(k))
                } else if vals[p] is Some {
                    Err(ErrorV::DuplicateField(k))
                } else {
                    Ok(vals.update(p, Some(obj[n - 1].1)))
                }
            },
        }
    }
}

/// The slots of a whole object.
pub open spec fn fields_of(obj: Seq<(Seq<char>, JsonV)>, keys: Seq<Seq<char>>) -> Result<
    Seq<Option<JsonV>>,
    ErrorV,
> {
    collect(obj, keys, obj.len())
}

/// The entries written for the first `n` slots: the filled ones, in key order.
pub open spec fn emit(keys: Seq<Seq<char>>, vals: Seq<Option<JsonV>>, n: nat) -> Seq<
    (Seq<char>, JsonV),
>
    decreases n,
{
    if n == 0 {
        Seq::empty()
    } else {
        let prev = emit(keys, vals, (n - 1) as nat);
        match vals[n - 1] {
            Some(v) => prev.push((keys[n - 1], v)),
            None => prev,
        }
    }
}

/// The object written for a full row of slots.
pub open spec fn emit_object(keys: Seq<Seq<char>>, vals: Seq<Option<JsonV>>) -> JsonV {
    JsonV::Object(emit(keys, vals, keys.len()))
}

pub proof fn lemma_object_view(v: Vec<(String, Json)>)
    ensures
        json_view(Json::Object(v)) == JsonV::Object(entries_view(v@)),
{
    assert(entries_view(v@) =~= match json_view(Json::Object(v)) {
        JsonV::Object(e) => e,
        _ => Seq::empty(),
    });
}

/// Once collecting fails, it fails with the same error on any longer prefix.
proof fn lemma_collect_err_stays(obj: Seq<(Seq<char>, JsonV)>, keys: Seq<Seq<char>>, m: nat, n: nat)
    requires
        m <= n,
        collect(obj, keys, m) is Err,
    ensures
        collect(obj, keys, n) == collect(obj, keys, m),
    decreases n - m,
{
    if m < n {
        lemma_collect_err_stays(obj, keys, m, (n - 1) as nat);
    }
}

/// Position of `k` among `keys`.
fn find_key(keys: &Vec<String>, k: &String) -> (r: Option<usize>)
    requires
        distinct(key_views(keys@)),
    ensures
        match r {
            Some(p) => p < keys@.len() && key_pos(key_views(keys@), k@) == p,
            None => key_pos(key_views(keys@), k@) == -1,
        },
{
    let mut i: usize = 0;
    while i < keys.len()
        invariant
            i <= keys@.len(),
            distinct(key_views(keys@)),
            forall|j: int| 0 <= j < i ==> key_views(keys@)[j] != k@,
        decreases keys@.len() - i,
    {
        if keys[i].eq(k) {
            assert(key_views(keys@)[i as int] == k@);
            proof {
                let c = key_pos(key_views(keys@), k@);
                assert(0 <= c < keys@.len() && key_views(keys@)[c] == k@);
                if c != i as int {
                    assert(key_views(keys@)[c] != key_views(keys@)[i as int]);
                }
            }
            return Some(i);
        }
        i += 1;
    }
    None
}

/// Sorts the entries of an object into one slot per known key; a slot holds
/// the index of its entry.
pub fn collect_fields(entries: &Vec<(String, Json)>, keys: &Vec<String>) -> (r: Result<
    Vec<Option<usize>>,
    Error,
>)
    requires
        distinct(key_views(keys@)),
    ensures
        match (r, fields_of(entries_view(entries@), key_views(keys@))) {
            (Ok(s), Ok(vals)) => slots_hold(entries@, s@, vals) && vals.len() == keys@.len(),
            (Err(e), Err(f)) => e@ == f,
            _ => false,
        },
{
    let ghost obj = entries_view(entries@);
    let ghost kv = key_views(keys@);
    let mut s: Vec<Option<usize>> = Vec::new();
    let mut j: usize = 0;
    while j < keys.len()
        invariant
            j <= keys@.len(),
            s@.len() == j,
            forall|p: int| 0 <= p < j ==> s@[p] is None,
        decreases keys@.len() - j,
    {
        s.push(None);
        j += 1;
    }
    assert(slots_hold(entries@, s@, Seq::new(kv.len(), |i: int| None::<JsonV>)));
    let mut i: usize = 0;
    while i < entries.len()
        invariant
            i <= entries@.len(),
            s@.len() == keys@.len(),
            obj == entries_view(entries@),
            kv == key_views(keys@),
            distinct(kv),
            collect(obj, kv, i as nat) is Ok,
            slots_hold(entries@, s@, collect(obj, kv, i as nat)->Ok_0),
            collect(obj, kv, i as nat)->Ok_0.len() == kv.len(),
        decreases entries@.len() - i,
    {
        let ghost prev = collect(obj, kv, i as nat)->Ok_0;
        let k = &entries[i].0;
        match find_key(keys, k) {
            None => {
                proof {
                    lemma_collect_err_stays(obj, kv, (i + 1) as nat, entries@.len());
                }
                return Err(Error::UnknownField(k.clone()));
            },
            Some(p) => {
                if s[p].is_some() {
                    proof {
                        lemma_collect_err_stays(obj, kv, (i + 1) as nat, entries@.len());
                    }
                    return Err(Error::DuplicateField(k.clone()));
                }
                s.set(p, Some(i));
                assert(slots_hold(entries@, s@, prev.update(p as int, Some(obj[i as int].1))));
            },
        }
        i += 1;
    }
    Ok(s)
}

/// Each slot index points at the entry whose value fills the slot.
pub open spec fn slots_hold(entries: Seq<(String, Json)>, s: Seq<Option<usize>>, vals: Seq<Option<JsonV>>) -> bool {
    &&& s.len() == vals.len()
    &&& forall|p: int|
        0 <= p < s.len() ==> match #[trigger] s[p] {
            None => vals[p] is None,
            Some(i) => i < entries.len() && vals[p] == Some(json_view(entries[i as int].1)),
        }
}

/// The value that fills slot `p`, if any.
pub fn slot<'a>(entries: &'a Vec<(String, Json)>, s: &Vec<Option<usize>>, p: usize, Ghost(vals): Ghost<Seq<Option<JsonV>>>) -> (r: Option<&'a Json>)
    requires
        slots_hold(entries@, s@, vals),
        p < s@.len(),
    ensures
        match r {
            None => vals[p as int] is None,
            Some(j) => vals[p as int] == Some(json_view(*j)),
        },
{
    match s[p] {
        None => None,
        Some(i) => Some(&entries[i].1),
    }
}

/// Appends the entry for slot `n`, if that slot is filled.
pub fn push_field(
    entries: &mut Vec<(String, Json)>,
    key: &str,
    val: Option<Json>,
    Ghost(keys): Ghost<Seq<Seq<char>>>,
    Ghost(vals): Ghost<Seq<Option<JsonV>>>,
    Ghost(n): Ghost<nat>,
)
    requires
        entries_view(old(entries)@) == emit(keys, vals, n),
        n < keys.len(),
        n < vals.len(),
        keys[n as int] == key@,
        vals[n as int] == opt_json_view(val),
    ensures
        entries_view(final(entries)@) == emit(keys, vals, n + 1),
{
    let ghost before = entries@;
    match val {
        Some(v) => {
            entries.push((key.to_owned(), v));
            assert(entries_view(entries@) =~= emit(keys, vals, n + 1));
        },
        None => {},
    }
}

/// Collecting depends only on the first `m` entries.
proof fn lemma_collect_prefix(
    a: Seq<(Seq<char>, JsonV)>,
    b: Seq<(Seq<char>, JsonV)>,
    keys: Seq<Seq<char>>,
    m: nat,
)
    requires
        m <= a.len(),
        m <= b.len(),
        forall|i: int| 0 <= i < m ==> a[i] == b[i],
    ensures
        collect(a, keys, m) == collect(b, keys, m),
    decreases m,
{
    if m > 0 {
        lemma_collect_prefix(a, b, keys, (m - 1) as nat);
    }
}

proof fn lemma_key_pos(keys: Seq<Seq<char>>, p: int)
    requires
        distinct(keys),
        0 <= p < keys.len(),
    ensures
        key_pos(keys, keys[p]) == p,
{
    let c = key_pos(keys, keys[p]);
    assert(0 <= c < keys.len() && keys[c] == keys[p]);
}

proof fn lemma_collect_emit(keys: Seq<Seq<char>>, vals: Seq<Option<JsonV>>, n: nat)
    requires
        distinct(keys),
        vals.len() == keys.len(),
        n <= keys.len(),
    ensures
        collect(emit(keys, vals, n), keys, emit(keys, vals, n).len()) == Ok::<_, ErrorV>(
            Seq::new(keys.len(), |i: int| if i < n { vals[i] } else { None }),
        ),
    decreases n,
{
    if n == 0 {
        assert(Seq::new(keys.len(), |i: int| None::<JsonV>) =~= Seq::new(
            keys.len(),
            |i: int| if i < n { vals[i] } else { None },
        ));
    } else {
        lemma_collect_emit(keys, vals, (n - 1) as nat);
        let prev = emit(keys, vals, (n - 1) as nat);
        let cur = emit(keys, vals, n);
        let before = Seq::new(keys.len(), |i: int| if i < n - 1 { vals[i] } else { None });
        let after = Seq::new(keys.len(), |i: int| if i < n { vals[i] } else { None });
        match vals[n - 1] {
            None => {
                assert(before =~= after);
            },
            Some(v) => {
                lemma_collect_prefix(prev, cur, keys, prev.len());
                lemma_key_pos(keys, n - 1);
                assert(cur.len() == prev.len() + 1);
                assert(cur[prev.len() as int] == (keys[n - 1], v));
                assert(before[n - 1] is None);
                assert(before.update(n - 1, Some(v)) =~= after);
                assert(collect(cur, keys, cur.len()) == Ok::<_, ErrorV>(before.update(n - 1, Some(v))));
            },
        }
    }
}

/// Reading back what [`emit_object`] wrote gives every slot as it was.
pub proof fn lemma_fields_of_emit(keys: Seq<Seq<char>>, vals: Seq<Option<JsonV>>)
    requires
        distinct(keys),
        vals.len() == keys.len(),
    ensures
        fields_of(emit(keys, vals, keys.len()), keys) == Ok::<_, ErrorV>(vals),
{
    lemma_collect_emit(keys, vals, keys.len());
    assert(Seq::new(keys.len(), |i: int| if i < keys.len() { vals[i] } else { None }) =~= vals);
}

/// Every entry written for the first `n` slots comes from a filled slot, and
/// every filled slot among them is written.
proof fn lemma_emit_entries(keys: Seq<Seq<char>>, vals: Seq<Option<JsonV>>, n: nat)
    requires
        vals.len() == keys.len(),
        n <= keys.len(),
    ensures
        forall|i: int|
            0 <= i < emit(keys, vals, n).len() ==> exists|q: int|
                0 <= q < n && keys[q] == (#[trigger] emit(keys, vals, n)[i]).0 && vals[q] == Some(
                    emit(keys, vals, n)[i].1,
                ),
        forall|q: int|
            0 <= q < n && #[trigger] vals[q] is Some ==> exists|i: int|
                0 <= i < emit(keys, vals, n).len() && emit(keys, vals, n)[i] == (keys[q], vals[q]->0),
    decreases n,
{
    if n > 0 {
        lemma_emit_entries(keys, vals, (n - 1) as nat);
        let prev = emit(keys, vals, (n - 1) as nat);
        let cur = emit(keys, vals, n);
        assert forall|i: int| 0 <= i < cur.len() implies exists|q: int|
            0 <= q < n && keys[q] == (#[trigger] cur[i]).0 && vals[q] == Some(cur[i].1) by {
            if i < prev.len() {
                assert(cur[i] == prev[i]);
            } else {
                assert(keys[n - 1] == cur[i].0);
            }
        }
        assert forall|q: int| 0 <= q < n && #[trigger] vals[q] is Some implies exists|i: int|
            0 <= i < cur.len() && cur[i] == (keys[q], vals[q]->0) by {
            if q < n - 1 {
                let i = choose|i: int| 0 <= i < prev.len() && prev[i] == (keys[q], vals[q]->0);
                assert(cur[i] == prev[i]);
            } else {
                assert(cur[prev.len() as int] == (keys[q], vals[q]->0));
            }
        }
    }
}

/// An object written from slots holds the key of a slot exactly when that
/// slot is filled, and then with the slot's value.
pub proof fn lemma_emit_keys(keys: Seq<Seq<char>>, vals: Seq<Option<JsonV>>, p: int)
    requires
        distinct(keys),
        vals.len() == keys.len(),
        0 <= p < keys.len(),
    ensures
        vals[p] is None ==> forall|i: int|
            0 <= i < emit(keys, vals, keys.len()).len() ==> (#[trigger] emit(
                keys,
                vals,
                keys.len(),
            )[i]).0 != keys[p],
        vals[p] is Some ==> exists|i: int|
            0 <= i < emit(keys, vals, keys.len()).len() && emit(keys, vals, keys.len())[i] == (
                keys[p],
                vals[p]->0,
            ),
{
    lemma_emit_entries(keys, vals, keys.len());
    let e = emit(keys, vals, keys.len());
    if vals[p] is None {
        assert forall|i: int| 0 <= i < e.len() implies (#[trigger] e[i]).0 != keys[p] by {
            let q = choose|q: int| 0 <= q < keys.len() && keys[q] == e[i].0 && vals[q] == Some(e[i].1);
            if q != p {
                assert(keys[q] != keys[p]);
            }
        }
    }
}

/// Decoding of an optional string field: absent or `null` is unset.
pub open spec fn opt_str_of(v: Option<JsonV>, key: Seq<char>) -> Result<Option<Seq<char>>, ErrorV> {
    match v {
        None => Ok(None),
        Some(JsonV::Null) => Ok(None),
        Some(JsonV::Str(s)) => Ok(Some(s)),
        Some(_) => Err(ErrorV::InvalidType(key)),
    }
}

/// Decoding of a required string field.
pub open spec fn req_str_of(v: Option<JsonV>, key: Seq<char>) -> Result<Seq<char>, ErrorV> {
    match v {
        None => Err(ErrorV::MissingField(key)),
        Some(JsonV::Str(s)) => Ok(s),
        Some(_) => Err(ErrorV::InvalidType(key)),
    }
}

/// Decoding of a required number field, kept as its literal text.
pub open spec fn req_num_of(v: Option<JsonV>, key: Seq<char>) -> Result<Seq<char>, ErrorV> {
    match v {
        None => Err(ErrorV::MissingField(key)),
        Some(JsonV::Number(s)) => Ok(s),
        Some(_) => Err(ErrorV::InvalidType(key)),
    }
}

/// Decoding of an optional boolean field.
pub open spec fn opt_bool_of(v: Option<JsonV>, key: Seq<char>) -> Result<Option<bool>, ErrorV> {
    match v {
        None => Ok(None),
        Some(JsonV::Null) => Ok(None),
        Some(JsonV::Bool(b)) => Ok(Some(b)),
        Some(_) => Err(ErrorV::InvalidType(key)),
    }
}

/// Decoding of the first `n` elements of a list with `f`, failing at the first
/// element that `f` refuses.
pub open spec fn list_of<T>(xs: Seq<JsonV>, f: spec_fn(JsonV) -> Result<T, ErrorV>, n: nat) -> Result<
    Seq<T>,
    ErrorV,
>
    decreases n,
{
    if n == 0 {
        Ok(Seq::empty())
    } else {
        match list_of(xs, f, (n - 1) as nat) {
            Err(e) => Err(e),
            Ok(done) => match f(xs[n - 1]) {
                Err(e) => Err(e),
                Ok(x) => Ok(done.push(x)),
            },
        }
    }
}

/// Decoding of an optional list field whose elements `f` decodes.
pub open spec fn opt_list_of<T>(v: Option<JsonV>, key: Seq<char>, f: spec_fn(JsonV) -> Result<T, ErrorV>) -> Result<
    Option<Seq<T>>,
    ErrorV,
> {
    match v {
        None => Ok(None),
        Some(JsonV::Null) => Ok(None),
        Some(JsonV::Array(xs)) => match list_of(xs, f, xs.len()) {
            Ok(ys) => Ok(Some(ys)),
            Err(e) => Err(e),
        },
        Some(_) => Err(ErrorV::InvalidType(key)),
    }
}

/// A list element that must be a string.
pub open spec fn str_elem(key: Seq<char>) -> spec_fn(JsonV) -> Result<Seq<char>, ErrorV> {
    |j: JsonV|
        match j {
            JsonV::Str(s) => Ok(s),
            _ => Err(ErrorV::InvalidType(key)),
        }
}

/// Decoding a list of encoded values gives the values back.
pub proof fn lemma_list_round_trip<T>(ys: Seq<T>, enc: spec_fn(T) -> JsonV, f: spec_fn(JsonV) -> Result<T, ErrorV>, n: nat)
    requires
        n <= ys.len(),
        forall|i: int| 0 <= i < ys.len() ==> f(enc(#[trigger] ys[i])) == Ok::<T, ErrorV>(ys[i]),
    ensures
        list_of(ys.map_values(enc), f, n) == Ok::<_, ErrorV>(ys.take(n as int)),
    decreases n,
{
    if n > 0 {
        lemma_list_round_trip(ys, enc, f, (n - 1) as nat);
        assert(ys.map_values(enc)[n - 1] == enc(ys[n - 1]));
        assert(f(enc(ys[n - 1])) == Ok::<T, ErrorV>(ys[n - 1]));
        assert(ys.take(n - 1).push(ys[n - 1]) =~= ys.take(n as int));
    } else {
        assert(ys.take(0) =~= Seq::<T>::empty());
    }
}

pub open spec fn opt_str_view(o: Option<String>) -> Option<Seq<char>> {
    match o {
        Some(s) => Some(s@),
        None => None,
    }
}

pub open spec fn opt_ref_view(o: Option<&Json>) -> Option<JsonV> {
    match o {
        Some(j) => Some(json_view(*j)),
        None => None,
    }
}

/// Reads an optional string field.
pub fn opt_str(v: Option<&Json>, key: &str) -> (r: Result<Option<String>, Error>)
    ensures
        match (r, opt_str_of(opt_ref_view(v), key@)) {
            (Ok(a), Ok(b)) => opt_str_view(a) == b,
            (Err(e), Err(g)) => e@ == g,
            _ => false,
        },
{
    match v {
        None => Ok(None),
        Some(Json::Null) => Ok(None),
        Some(Json::Str(s)) => Ok(Some(s.clone())),
        Some(_) => Err(Error::InvalidType(key.to_owned())),
    }
}

/// Reads a required string field.
pub fn req_str(v: Option<&Json>, key: &str) -> (r: Result<String, Error>)
    ensures
        match (r, req_str_of(opt_ref_view(v), key@)) {
            (Ok(a), Ok(b)) => a@ == b,
            (Err(e), Err(g)) => e@ == g,
            _ => false,
        },
{
    match v {
        None => Err(Error::MissingField(key.to_owned())),
        Some(Json::Str(s)) => Ok(s.clone()),
        Some(_) => Err(Error::InvalidType(key.to_owned())),
    }
}

/// Reads a required number field as its literal text.
pub fn req_num(v: Option<&Json>, key: &str) -> (r: Result<String, Error>)
    ensures
        match (r, req_num_of(opt_ref_view(v), key@)) {
            (Ok(a), Ok(b)) => a@ == b,
            (Err(e), Err(g)) => e@ == g,
            _ => false,
        },
{
    match v {
        None => Err(Error::MissingField(key.to_owned())),
        Some(Json::Number(s)) => Ok(s.clone()),
        Some(_) => Err(Error::InvalidType(key.to_owned())),
    }
}

/// Reads an optional boolean field.
pub fn opt_bool(v: Option<&Json>, key: &str) -> (r: Result<Option<bool>, Error>)
    ensures
        match (r, opt_bool_of(opt_ref_view(v), key@)) {
            (Ok(a), Ok(b)) => a == b,
            (Err(e), Err(g)) => e@ == g,
            _ => false,
        },
{
    match v {
        None => Ok(None),
        Some(Json::Null) => Ok(None),
        Some(Json::Bool(b)) => Ok(Some(*b)),
        Some(_) => Err(Error::InvalidType(key.to_owned())),
    }
}

pub open spec fn str_list_view(o: Option<Vec<String>>) -> Option<Seq<Seq<char>>> {
    match o {
        Some(v) => Some(v@.map_values(|s: String| s@)),
        None => None,
    }
}

/// Reads an optional list of strings.
pub fn opt_str_list(v: Option<&Json>, key: &str) -> (r: Result<Option<Vec<String>>, Error>)
    ensures
        match (r, opt_list_of(opt_ref_view(v), key@, str_elem(key@))) {
            (Ok(a), Ok(b)) => str_list_view(a) == b,
            (Err(e), Err(g)) => e@ == g,
            _ => false,
        },
{
    let j = match v {
        None => {
            return Ok(None);
        },
        Some(j) => j,
    };
    match j {
        Json::Null => Ok(None),
        Json::Array(xs) => {
            let ghost xv = match json_view(*j) {
                JsonV::Array(a) => a,
                _ => Seq::empty(),
            };
            let mut out: Vec<String> = Vec::new();
            assert(out@.map_values(|s: String| s@) =~= Seq::<Seq<char>>::empty());
            let mut i: usize = 0;
            while i < xs.len()
                invariant
                    i <= xs@.len(),
                    opt_ref_view(v) == Some(JsonV::Array(xv)),
                    xv.len() == xs@.len(),
                    forall|k: int| 0 <= k < xs@.len() ==> xv[k] == json_view(#[trigger] xs@[k]),
                    list_of(xv, str_elem(key@), i as nat) == Ok::<_, ErrorV>(out@.map_values(|s: String| s@)),
                decreases xs@.len() - i,
            {
                match &xs[i] {
                    Json::Str(s) => {
                        out.push(s.clone());
                        assert(out@.map_values(|s: String| s@) =~= list_of(xv, str_elem(key@), i as nat)->Ok_0.push(s@));
                    },
                    _ => {
                        proof {
                            assert(xv[i as int] == json_view(xs@[i as int]));
                            assert(str_elem(key@)(xv[i as int]) is Err);
                            lemma_list_err_stays(xv, str_elem(key@), (i + 1) as nat, xv.len());
                            assert(list_of(xv, str_elem(key@), (i + 1) as nat) == Err::<Seq<Seq<char>>, ErrorV>(
                                ErrorV::InvalidType(key@),
                            ));
                        }
                        return Err(Error::InvalidType(key.to_owned()));
                    },
                }
                i += 1;
            }
            Ok(Some(out))
        },
        _ => Err(Error::InvalidType(key.to_owned())),
    }
}

/// Once a list fails to decode, it fails with the same error on any longer prefix.
pub proof fn lemma_list_err_stays<T>(xs: Seq<JsonV>, f: spec_fn(JsonV) -> Result<T, ErrorV>, m: nat, n: nat)
    requires
        m <= n,
        list_of(xs, f, m) is Err,
    ensures
        list_of(xs, f, n) == list_of(xs, f, m),
    decreases n - m,
{
    if m < n {
        lemma_list_err_stays(xs, f, m, (n - 1) as nat);
    }
}

/// The slot of an optional string field.
pub open spec fn str_slot(o: Option<Seq<char>>) -> Option<JsonV> {
    match o {
        Some(s) => Some(JsonV::Str(s)),
        None => None,
    }
}

/// The slot of an optional list field whose elements `enc` writes.
pub open spec fn list_slot<T>(o: Option<Seq<T>>, enc: spec_fn(T) -> JsonV) -> Option<JsonV> {
    match o {
        Some(xs) => Some(JsonV::Array(xs.map_values(enc))),
        None => None,
    }
}

pub open spec fn str_json_view(s: Seq<char>) -> JsonV {
    JsonV::Str(s)
}

/// The value written for an optional string.
pub fn str_json(o: &Option<String>) -> (r: Option<Json>)
    ensures
        opt_json_view(r) == str_slot(opt_str_view(*o)),
{
    match o {
        Some(s) => Some(Json::Str(s.clone())),
        None => None,
    }
}

/// The array written for a list of JSON values.
pub fn array_json(xs: Vec<Json>) -> (r: Json)
    ensures
        r@ == JsonV::Array(xs@.map_values(|j: Json| json_view(j))),
{
    let r = Json::Array(xs);
    assert(xs@.map_values(|j: Json| json_view(j)) =~= match json_view(r) {
        JsonV::Array(a) => a,
        _ => Seq::empty(),
    });
    r
}

/// The value written for an optional list of strings.
pub fn str_list_json(o: &Option<Vec<String>>) -> (r: Option<Json>)
    ensures
        opt_json_view(r) == list_slot(str_list_view(*o), |s: Seq<char>| str_json_view(s)),
{
    match o {
        None => None,
        Some(v) => {
            let mut out: Vec<Json> = Vec::new();
            let mut i: usize = 0;
            while i < v.len()
                invariant
                    i <= v@.len(),
                    out@.len() == i,
                    forall|k: int| 0 <= k < i ==> json_view(#[trigger] out@[k]) == JsonV::Str(v@[k]@),
                decreases v@.len() - i,
            {
                out.push(Json::Str(v[i].clone()));
                i += 1;
            }
            let r = array_json(out);
            assert(out@.map_values(|j: Json| json_view(j)) =~= v@.map_values(|s: String| s@).map_values(
                |s: Seq<char>| str_json_view(s),
            ));
            Some(r)
        },
    }
}

/// Writes the entries of an object.
pub fn object_json(entries: Vec<(String, Json)>) -> (r: Json)
    ensures
        r@ == JsonV::Object(entries_view(entries@)),
{
    proof {
        lemma_object_view(entries);
    }
    Json::Object(entries)
}

/// An optional list written with `enc` reads back with `f` as it was, when
/// `f` reads back each element that `enc` writes.
pub proof fn lemma_opt_list_round_trip<T>(
    o: Option<Seq<T>>,
    key: Seq<char>,
    enc: spec_fn(T) -> JsonV,
    f: spec_fn(JsonV) -> Result<T, ErrorV>,
)
    requires
        o is Some ==> forall|i: int|
            0 <= i < o->0.len() ==> f(enc(#[trigger] o->0[i])) == Ok::<T, ErrorV>(o->0[i]),
    ensures
        opt_list_of(list_slot(o, enc), key, f) == Ok::<_, ErrorV>(o),
{
    if let Some(xs) = o {
        lemma_list_round_trip(xs, enc, f, xs.len());
        assert(xs.take(xs.len() as int) =~= xs);
    }
}

pub proof fn lemma_array_view(v: Vec<Json>)
    ensures
        json_view(Json::Array(v)) == JsonV::Array(v@.map_values(|j: Json| json_view(j))),
{
    assert(v@.map_values(|j: Json| json_view(j)) =~= match json_view(Json::Array(v)) {
        JsonV::Array(a) => a,
        _ => Seq::empty(),
    });
}

/// The slot of an optional boolean field.
pub open spec fn bool_slot(o: Option<bool>) -> Option<JsonV> {
    match o {
        Some(b) => Some(JsonV::Bool(b)),
        None => None,
    }
}

/// The value written for an optional boolean.
pub fn bool_json(o: Option<bool>) -> (r: Option<Json>)
    ensures
        opt_json_view(r) == bool_slot(o),
{
    match o {
        Some(b) => Some(Json::Bool(b)),
        None => None,
    }
}

/// Decoding of a list field that is empty when absent.
pub open spec fn dlist_of<T>(v: Option<JsonV>, key: Seq<char>, f: spec_fn(JsonV) -> Result<T, ErrorV>) -> Result<
    Seq<T>,
    ErrorV,
> {
    match v {
        None => Ok(Seq::empty()),
        Some(JsonV::Array(xs)) => list_of(xs, f, xs.len()),
        Some(_) => Err(ErrorV::InvalidType(key)),
    }
}

/// After a successful collection of the first `n` entries, every slot has
/// one value per key, each entry among them has filled the slot of its key,
/// and each filled slot comes from an entry with that key.
pub proof fn lemma_collect_slots(obj: Seq<(Seq<char>, JsonV)>, keys: Seq<Seq<char>>, n: nat)
    requires
        n <= obj.len(),
        collect(obj, keys, n) is Ok,
    ensures
        collect(obj, keys, n)->Ok_0.len() == keys.len(),
        forall|i: int|
            0 <= i < n ==> 0 <= #[trigger] key_pos(keys, obj[i].0) < keys.len() && collect(
                obj,
                keys,
                n,
            )->Ok_0[key_pos(keys, obj[i].0)] is Some,
        forall|p: int|
            0 <= p < keys.len() && (#[trigger] collect(obj, keys, n)->Ok_0[p]) is Some ==> exists|i: int|
                0 <= i < n && obj[i].0 == keys[p],
    decreases n,
{
    if n > 0 {
        lemma_collect_slots(obj, keys, (n - 1) as nat);
        let prev = collect(obj, keys, (n - 1) as nat)->Ok_0;
        let cur = collect(obj, keys, n)->Ok_0;
        let k = obj[n - 1].0;
        let q = key_pos(keys, k);
        assert(0 <= q < keys.len() && keys[q] == k);
        assert(cur == prev.update(q, Some(obj[n - 1].1)));
        assert forall|p: int| 0 <= p < keys.len() && (#[trigger] cur[p]) is Some implies exists|i: int|
            0 <= i < n && obj[i].0 == keys[p] by {
            if p != q {
                assert(prev[p] is Some);
                let i = choose|i: int| 0 <= i < n - 1 && obj[i].0 == keys[p];
            } else {
                assert(obj[n - 1].0 == keys[p]);
            }
        }
    }
}

/// An object in which some key occurs twice cannot be read into slots.
pub proof fn lemma_repeated_key_fails(obj: Seq<(Seq<char>, JsonV)>, keys: Seq<Seq<char>>, a: int, b: int)
    requires
        0 <= a < b < obj.len(),
        obj[a].0 == obj[b].0,
    ensures
        fields_of(obj, keys) is Err,
{
    if collect(obj, keys, b as nat) is Err {
        lemma_collect_err_stays(obj, keys, b as nat, obj.len());
    } else {
        lemma_collect_slots(obj, keys, b as nat);
        let k = obj[a].0;
        assert(0 <= key_pos(keys, k) < keys.len());
        assert(collect(obj, keys, (b + 1) as nat) is Err);
        lemma_collect_err_stays(obj, keys, (b + 1) as nat, obj.len());
    }
}

/// A slot whose key no entry has stays empty.
pub proof fn lemma_absent_key_empty(obj: Seq<(Seq<char>, JsonV)>, keys: Seq<Seq<char>>, p: int)
    requires
        0 <= p < keys.len(),
        fields_of(obj, keys) is Ok,
        forall|i: int| 0 <= i < obj.len() ==> obj[i].0 != keys[p],
    ensures
        fields_of(obj, keys)->Ok_0[p] is None,
{
    lemma_collect_slots(obj, keys, obj.len());
    if fields_of(obj, keys)->Ok_0[p] is Some {
        let i = choose|i: int| 0 <= i < obj.len() && obj[i].0 == keys[p];
        assert(obj[i].0 != keys[p]);
    }
}

/// The entries of an object; none for another value.
pub open spec fn object_entries(j: JsonV) -> Seq<(Seq<char>, JsonV)> {
    match j {
        JsonV::Object(e) => e,
        _ => Seq::empty(),
    }
}

} // verus!
