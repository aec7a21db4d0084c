use vstd::prelude::*;
use vstd::string::StringExecFns;
use crate::json::{json_view, Json, JsonView, Number};
use crate::scalar::Scalar;

verus! {

/// A plain structured value: what the read accessors of a model hand out, in
/// a form that owes nothing to any host.
#[derive(Debug, PartialEq, Eq)]
pub enum Datum {
    /// Nothing: the thing asked for is not there.
    Absent,
    Bool(bool),
    Int(i64),
    /// A count or an index.
    Count(u64),
    Scalar(Scalar),
    Text(String),
    List(Vec<Datum>),
    /// Named fields, in a fixed order.
    Record(Vec<Field>),
}

/// One named field of a record.
#[derive(Debug, PartialEq, Eq)]
pub struct Field {
    pub name: String,
    pub value: Datum,
}

/// The mathematical value of a [`Datum`].
pub ghost enum DatumView {
    Absent,
    Bool(bool),
    Int(i64),
    Count(u64),
    Scalar(Scalar),
    Text(Seq<char>),
    List(Seq<DatumView>),
    Record(Seq<(Seq<char>, DatumView)>),
}

/// The mathematical value of a plain value: texts as sequences of
/// characters, lists and records as sequences of the values of what they
/// hold.
pub open spec fn datum_view(v: Datum) -> DatumView
    decreases v,
{
    match v {
        Datum::Absent => DatumView::Absent,
        Datum::Bool(b) => DatumView::Bool(b),
        Datum::Int(i) => DatumView::Int(i),
        Datum::Count(n) => DatumView::Count(n),
        Datum::Scalar(x) => DatumView::Scalar(x),
        Datum::Text(t) => DatumView::Text(t@),
        Datum::List(items) => DatumView::List(
            Seq::new(
                items.len() as nat,
                |i: int|
                    if 0 <= i < items.len() {
                        datum_view(items[i])
                    } else {
                        DatumView::Absent
                    },
            ),
        ),
        Datum::Record(fields) => DatumView::Record(
            Seq::new(
                fields.len() as nat,
                |i: int|
                    if 0 <= i < fields.len() {
                        (fields[i].name@, datum_view(fields[i].value))
                    } else {
                        (Seq::empty(), DatumView::Absent)
                    },
            ),
        ),
    }
}

impl DeepView for Datum {
    type V = DatumView;

    open spec fn deep_view(&self) -> DatumView {
        datum_view(*self)
    }
}

impl DeepView for Field {
    type V = (Seq<char>, DatumView);

    open spec fn deep_view(&self) -> (Seq<char>, DatumView) {
        (self.name@, self.value.deep_view())
    }
}

/// A number as a plain value: the integer where it is one, else the scalar.
pub open spec fn number_datum(n: Number) -> DatumView {
    match n.integer {
        Some(i) => DatumView::Int(i),
        None => match n.scalar {
            Some(x) => DatumView::Scalar(x),
            None => DatumView::Absent,
        },
    }
}

/// A parsed document as a plain value, shape for shape: null is absent, an
/// array a list, an object a record with its entries in their order.
pub open spec fn json_datum(j: JsonView) -> DatumView
    decreases j,
{
    match j {
        JsonView::Null => DatumView::Absent,
        JsonView::Bool(b) => DatumView::Bool(b),
        JsonView::Number(n) => number_datum(n),
        JsonView::Text(t) => DatumView::Text(t),
        JsonView::Array(items) => DatumView::List(
            Seq::new(
                items.len(),
                |i: int|
                    if 0 <= i < items.len() {
                        json_datum(items[i])
                    } else {
                        DatumView::Absent
                    },
            ),
        ),
        JsonView::Object(members) => DatumView::Record(
            Seq::new(
                members.len(),
                |i: int|
                    if 0 <= i < members.len() {
                        (members[i].0, json_datum(members[i].1))
                    } else {
                        (Seq::empty(), DatumView::Absent)
                    },
            ),
        ),
    }
}

/// A document that may not be there.
pub open spec fn document_or_absent(j: Option<JsonView>) -> DatumView {
    match j {
        Some(document) => json_datum(document),
        None => DatumView::Absent,
    }
}

/// A scalar that may not be there.
pub open spec fn scalar_or_absent(x: Option<Scalar>) -> DatumView {
    match x {
        Some(s) => DatumView::Scalar(s),
        None => DatumView::Absent,
    }
}

/// A text that may not be there.
pub open spec fn text_or_absent(t: Option<Seq<char>>) -> DatumView {
    match t {
        Some(s) => DatumView::Text(s),
        None => DatumView::Absent,
    }
}

/// A list of texts.
pub open spec fn text_list(texts: Seq<Seq<char>>) -> DatumView {
    DatumView::List(texts.map_values(|t: Seq<char>| DatumView::Text(t)))
}

/// A list of scalars.
pub open spec fn scalar_list(scalars: Seq<Scalar>) -> DatumView {
    DatumView::List(scalars.map_values(|x: Scalar| DatumView::Scalar(x)))
}

/// A list of flags.
pub open spec fn bool_list(flags: Seq<bool>) -> DatumView {
    DatumView::List(flags.map_values(|b: bool| DatumView::Bool(b)))
}

/// A list of signed integers.
pub open spec fn int_list(numbers: Seq<i32>) -> DatumView {
    DatumView::List(numbers.map_values(|i: i32| DatumView::Int(i as i64)))
}

/// A list of indices.
pub open spec fn index_list(indices: Seq<u16>) -> DatumView {
    DatumView::List(indices.map_values(|i: u16| DatumView::Count(i as u64)))
}

impl Datum {
    /// The value of a list, item by item.
    pub proof fn lemma_list_view(items: Vec<Datum>)
        ensures
            Datum::List(items).deep_view() == DatumView::List(items.deep_view()),
    {
        assert(Datum::List(items).deep_view()->List_0 =~= items.deep_view());
    }

    /// The value of a record, field by field.
    pub proof fn lemma_record_view(fields: Vec<Field>)
        ensures
            Datum::Record(fields).deep_view() == DatumView::Record(fields.deep_view()),
    {
        assert(Datum::Record(fields).deep_view()->Record_0 =~= fields.deep_view());
    }

    pub fn list(items: Vec<Datum>) -> (r: Datum)
        ensures
            r.deep_view() == DatumView::List(items.deep_view()),
    {
        proof {
            Datum::lemma_list_view(items);
        }
        Datum::List(items)
    }

    pub fn record(fields: Vec<Field>) -> (r: Datum)
        ensures
            r.deep_view() == DatumView::Record(fields.deep_view()),
    {
        proof {
            Datum::lemma_record_view(fields);
        }
        Datum::Record(fields)
    }

    /// A record without fields.
    pub fn empty_record() -> (r: Datum)
        ensures
            r.deep_view() == DatumView::Record(Seq::empty()),
    {
        let fields: Vec<Field> = Vec::new();
        assert(fields.deep_view() =~= Seq::<(Seq<char>, DatumView)>::empty());
        Datum::record(fields)
    }

    pub fn text(t: &String) -> (r: Datum)
        ensures
            r.deep_view() == DatumView::Text(t@),
    {
        Datum::Text(t.clone())
    }

    pub fn literal(t: &str) -> (r: Datum)
        ensures
            r.deep_view() == DatumView::Text(t@),
    {
        Datum::Text(String::from_str(t))
    }

    pub fn optional_text(t: &Option<String>) -> (r: Datum)
        ensures
            r.deep_view() == text_or_absent(t.deep_view()),
    {
        match t {
            Some(s) => Datum::Text(s.clone()),
            None => Datum::Absent,
        }
    }

    pub fn optional_scalar(x: Option<Scalar>) -> (r: Datum)
        ensures
            r.deep_view() == scalar_or_absent(x),
    {
        match x {
            Some(s) => Datum::Scalar(s),
            None => Datum::Absent,
        }
    }

    pub fn texts(texts: &Vec<String>) -> (r: Datum)
        ensures
            r.deep_view() == text_list(texts.deep_view()),
    {
        let mut out: Vec<Datum> = Vec::new();
        let mut i: usize = 0;
        while i < texts.len()
            invariant
                i <= texts.len(),
                out.len() == i,
                forall|k: int| 0 <= k < i ==>
                    (#[trigger] out[k]).deep_view() == DatumView::Text(texts[k]@),
            decreases texts.len() - i,
        {
            out.push(Datum::Text(texts[i].clone()));
            i += 1;
        }
        assert(out.deep_view() =~= text_list(texts.deep_view())->List_0);
        Datum::list(out)
    }

    pub fn scalars(scalars: &Vec<Scalar>) -> (r: Datum)
        ensures
            r.deep_view() == scalar_list(scalars@),
    {
        let mut out: Vec<Datum> = Vec::new();
        let mut i: usize = 0;
        while i < scalars.len()
            invariant
                i <= scalars.len(),
                out.len() == i,
                forall|k: int| 0 <= k < i ==>
                    (#[trigger] out[k]).deep_view() == DatumView::Scalar(scalars[k]),
            decreases scalars.len() - i,
        {
            out.push(Datum::Scalar(scalars[i]));
            i += 1;
        }
        assert(out.deep_view() =~= scalar_list(scalars@)->List_0);
        Datum::list(out)
    }

    pub fn bools(flags: &Vec<bool>) -> (r: Datum)
        ensures
            r.deep_view() == bool_list(flags@),
    {
        let mut out: Vec<Datum> = Vec::new();
        let mut i: usize = 0;
        while i < flags.len()
            invariant
                i <= flags.len(),
                out.len() == i,
                forall|k: int| 0 <= k < i ==>
                    (#[trigger] out[k]).deep_view() == DatumView::Bool(flags[k]),
            decreases flags.len() - i,
        {
            out.push(Datum::Bool(flags[i]));
            i += 1;
        }
        assert(out.deep_view() =~= bool_list(flags@)->List_0);
        Datum::list(out)
    }

    pub fn ints(numbers: &Vec<i32>) -> (r: Datum)
        ensures
            r.deep_view() == int_list(numbers@),
    {
        let mut out: Vec<Datum> = Vec::new();
        let mut i: usize = 0;
        while i < numbers.len()
            invariant
                i <= numbers.len(),
                out.len() == i,
                forall|k: int|
                    0 <= k < i ==> (#[trigger] out[k]).deep_view() == DatumView::Int(
                        numbers[k] as i64,
                    ),
            decreases numbers.len() - i,
        {
            out.push(Datum::Int(numbers[i] as i64));
            i += 1;
        }
        assert(out.deep_view() =~= int_list(numbers@)->List_0);
        Datum::list(out)
    }

    pub fn indices(indices: &Vec<u16>) -> (r: Datum)
        ensures
            r.deep_view() == index_list(indices@),
    {
        let mut out: Vec<Datum> = Vec::new();
        let mut i: usize = 0;
        while i < indices.len()
            invariant
                i <= indices.len(),
                out.len() == i,
                forall|k: int|
                    0 <= k < i ==> (#[trigger] out[k]).deep_view() == DatumView::Count(
                        indices[k] as u64,
                    ),
            decreases indices.len() - i,
        {
            out.push(Datum::Count(indices[i] as u64));
            i += 1;
        }
        assert(out.deep_view() =~= index_list(indices@)->List_0);
        Datum::list(out)
    }
}

impl Datum {
    /// Hands a parsed document out as a plain value.
    pub fn from_json(j: &Json) -> (r: Datum)
        ensures
            r.deep_view() == json_datum(j.deep_view()),
        decreases j,
    {
        match j {
            Json::Null => Datum::Absent,
            Json::Bool(b) => Datum::Bool(*b),
            Json::Number(n) => match n.integer {
                Some(i) => Datum::Int(i),
                None => match n.scalar {
                    Some(x) => Datum::Scalar(x),
                    None => Datum::Absent,
                },
            },
            Json::Text(t) => Datum::Text(t.clone()),
            Json::Array(items) => {
                let mut out: Vec<Datum> = Vec::new();
                let mut i: usize = 0;
                while i < items.len()
                    invariant
                        i <= items.len(),
                        out.len() == i,
                        *j == Json::Array(*items),
                        forall|k: int|
                            0 <= k < i ==> (#[trigger] out[k]).deep_view() == json_datum(
                                json_view(items[k]),
                            ),
                    decreases items.len() - i,
                {
                    proof {
                        vstd::std_specs::vec::axiom_vec_index_decreases(*items, i as int);
                        assert(decreases_to!(*j => j->Array_0));
                    }
                    out.push(Datum::from_json(&items[i]));
                    i += 1;
                }
                assert(out.deep_view() =~= json_datum(j.deep_view())->List_0);
                Datum::list(out)
            },
            Json::Object(members) => {
                let mut out: Vec<Field> = Vec::new();
                let mut i: usize = 0;
                while i < members.len()
                    invariant
                        i <= members.len(),
                        out.len() == i,
                        *j == Json::Object(*members),
                        forall|k: int|
                            0 <= k < i ==> (#[trigger] out[k]).deep_view() == (
                                members[k].key@,
                                json_datum(json_view(members[k].value)),
                            ),
                    decreases members.len() - i,
                {
                    proof {
                        vstd::std_specs::vec::axiom_vec_index_decreases(*members, i as int);
                        assert(decreases_to!(*j => j->Object_0));
                        assert(decreases_to!(members[i as int] => members[i as int].value));
                    }
                    let value = Datum::from_json(&members[i].value);
                    out.push(Field { name: members[i].key.clone(), value });
                    i += 1;
                }
                assert(out.deep_view() =~= json_datum(j.deep_view())->Record_0);
                Datum::record(out)
            },
        }
    }

    /// A document that may not be there, as a plain value.
    pub fn optional_document(j: &Option<Json>) -> (r: Datum)
        ensures
            r.deep_view() == document_or_absent(j.deep_view()),
    {
        match j {
            Some(document) => Datum::from_json(document),
            None => Datum::Absent,
        }
    }
}

impl Field {
    pub fn new(name: &str, value: Datum) -> (r: Field)
        ensures
            r.deep_view() == (name@, value.deep_view()),
    {
        Field { name: String::from_str(name), value }
    }
}

} // verus!
