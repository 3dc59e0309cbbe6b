//! The parsed request a dispatch works on, and what is read out of it.
//!
//! Parsing the request line, the headers and the multipart body happens at
//! the connection boundary; the dispatcher consumes the result as an
//! immutable value.

use vstd::prelude::*;

verus! {

/// One decoded form field of the request body.
#[derive(Debug, Clone)]
pub struct FormField {
    pub name: String,
    pub value: String,
}

/// An already-parsed HTTP request, immutable for the duration of one dispatch.
#[derive(Debug, Clone)]
pub struct Request {
    pub method: String,
    pub location: String,
    pub host: String,
    pub port: u16,
    /// The declared body length, from the Content-Length header.
    pub length: u32,
    /// The raw body bytes.
    pub body: Vec<u8>,
    /// The multipart boundary token, when the body is multipart.
    pub boundary: Option<String>,
    pub content_type: String,
    /// Whether the body arrived whole.
    pub complete: bool,
    pub id_session: String,
    /// The decoded form fields of the body, in order of appearance.
    pub fields: Vec<FormField>,
}

/// The value of the first form field named `name`; empty when there is none.
pub open spec fn spec_field_value(fields: Seq<FormField>, name: Seq<char>) -> Seq<char>
    decreases fields.len(),
{
    if fields.len() == 0 {
        Seq::empty()
    } else if fields[0].name@ == name {
        fields[0].value@
    } else {
        spec_field_value(fields.drop_first(), name)
    }
}

/// Whether some form field is named `name`.
pub open spec fn spec_has_field(fields: Seq<FormField>, name: Seq<char>) -> bool {
    exists|i: int| 0 <= i < fields.len() && fields[i].name@ == name
}

impl Request {
    /// The value of the first form field named `field`; empty when there is none.
    pub fn extract_field(&self, field: &str) -> (r: String)
        ensures
            r@ == spec_field_value(self.fields@, field@),
    {
        let name = field.to_owned();
        proof {
            assert(self.fields@.skip(0) =~= self.fields@);
        }
        let mut i: usize = 0;
        while i < self.fields.len()
            invariant
                0 <= i <= self.fields@.len(),
                name@ == field@,
                forall|j: int| 0 <= j < i ==> self.fields@[j].name@ != field@,
                spec_field_value(self.fields@, field@) == spec_field_value(
                    self.fields@.skip(i as int),
                    field@,
                ),
            decreases self.fields@.len() - i,
        {
            proof {
                assert(self.fields@.skip(i as int)[0] == self.fields@[i as int]);
                assert(self.fields@.skip(i as int).drop_first() =~= self.fields@.skip(i + 1));
            }
            if self.fields[i].name.eq(&name) {
                return self.fields[i].value.clone();
            }
            i += 1;
        }
        proof {
            assert(self.fields@.skip(i as int) =~= Seq::<FormField>::empty());
        }
        String::new()
    }

    /// Whether the request body carries a form field named `field`.
    pub fn has_field(&self, field: &str) -> (r: bool)
        ensures
            r == spec_has_field(self.fields@, field@),
    {
        let name = field.to_owned();
        let mut i: usize = 0;
        while i < self.fields.len()
            invariant
                0 <= i <= self.fields@.len(),
                name@ == field@,
                forall|j: int| 0 <= j < i ==> self.fields@[j].name@ != field@,
            decreases self.fields@.len() - i,
        {
            if self.fields[i].name.eq(&name) {
                return true;
            }
            i += 1;
        }
        false
    }
}

} // verus!
