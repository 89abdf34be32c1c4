//! A structured value as the backend hands it back: the JSON-like shapes
//! the conversion layer reads, held as plain data. A number that does not
//! fit a signed 64-bit integer, and any other shape the model does not
//! carry, is `Other`.

use vstd::prelude::*;

verus! {

/// One node of a backend response value. An object keeps its fields in
/// order; a lookup takes the first field of the asked-for name.
#[derive(Debug)]
pub enum RawValue {
    Null,
    Bool(bool),
    Int(i64),
    Text(String),
    Array(Vec<RawValue>),
    Object(Vec<(String, RawValue)>),
    Other,
}

/// The first field of the given name among `fields`, if any.
pub open spec fn spec_field(fields: Seq<(String, RawValue)>, name: Seq<char>) -> Option<RawValue>
    decreases fields.len(),
{
    if fields.len() == 0 {
        None
    } else if fields[0].0@ == name {
        Some(fields[0].1)
    } else {
        spec_field(fields.drop_first(), name)
    }
}

/// Field lookup on a value: defined on objects, `None` on anything else.
pub open spec fn spec_get(v: RawValue, name: Seq<char>) -> Option<RawValue> {
    match v {
        RawValue::Object(fields) => spec_field(fields@, name),
        _ => None,
    }
}

impl RawValue {
    /// Looks a field up by name; `None` when the value is not an object or
    /// has no field of that name.
    pub fn get<'a>(&'a self, name: &str) -> (r: Option<&'a RawValue>)
        ensures
            match r {
                Some(v) => spec_get(*self, name@) == Some(*v),
                None => spec_get(*self, name@) is None,
            },
    {
        match self {
            RawValue::Object(fields) => {
                let n = fields.len();
                let mut i: usize = 0;
                proof {
                    assert(fields@.skip(0) =~= fields@);
                }
                while i < n
                    invariant
                        n == fields@.len(),
                        i <= n,
                        spec_get(*self, name@) == spec_field(fields@, name@),
                        spec_field(fields@, name@) == spec_field(fields@.skip(i as int), name@),
                    decreases n - i,
                {
                    proof {
                        assert(fields@.skip(i as int)[0] == fields@[i as int]);
                        assert(fields@.skip(i as int).drop_first() =~= fields@.skip(i as int + 1));
                    }
                    if crate::text::str_eq(fields[i].0.as_str(), name) {
                        proof {
                            assert(fields@[i as int].0@ == name@);
                            assert(spec_field(fields@.skip(i as int), name@) == Some(
                                fields@[i as int].1,
                            ));
                            assert(spec_get(*self, name@) == spec_field(fields@, name@));
                        }
                        return Some(&fields[i].1);
                    }
                    i = i + 1;
                }
                proof {
                    assert(fields@.skip(n as int).len() == 0);
                }
                None
            },
            _ => None,
        }
    }
}

/// Takes the first field of the given name out of an object's field list,
/// returning its value.
pub fn take_field(fields: Vec<(String, RawValue)>, name: &str) -> (r: Option<RawValue>)
    ensures
        r == spec_field(fields@, name@),
{
    let ghost orig = fields@;
    let mut rest = fields;
    proof {
        assert(orig.skip(0) =~= orig);
    }
    let ghost mut k: int = 0;
    while rest.len() > 0
        invariant
            orig == fields@,
            0 <= k <= orig.len(),
            rest@ == orig.skip(k),
            spec_field(orig, name@) == spec_field(rest@, name@),
        decreases rest@.len(),
    {
        proof {
            assert(rest@[0] == orig[k]);
            assert(rest@.drop_first() =~= orig.skip(k + 1));
        }
        let head = rest.remove(0);
        if crate::text::str_eq(head.0.as_str(), name) {
            proof {
                assert(head == orig[k]);
                assert(head.0@ == name@);
                assert(spec_field(orig.skip(k), name@) == Some(head.1));
            }
            return Some(head.1);
        }
        proof {
            k = k + 1;
        }
    }
    None
}

} // verus!
