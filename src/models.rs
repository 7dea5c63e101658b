use vstd::prelude::*;

verus! {

/// An account as the database stores it: the `id` is assigned by the database.
#[derive(Clone, Debug, PartialEq, Eq)]
pub struct BankAccount {
    pub id: i32,
    pub name: String,
    pub stakeholder: String,
}

/// The fields of an account that a client supplies when it creates one.
#[derive(Clone, Debug, PartialEq, Eq)]
pub struct NewAccount {
    pub name: String,
    pub stakeholder: String,
}

/// A required field that a creation request did not carry.
#[derive(Clone, Copy, Debug, PartialEq, Eq)]
pub enum MissingField {
    Name,
    Stakeholder,
}

/// The outcome of decoding a creation request from the fields found in its body:
/// both fields are required, and `name` is reported first when both are absent.
pub open spec fn decode_spec(name: Option<String>, stakeholder: Option<String>) -> Result<NewAccount, MissingField> {
    match (name, stakeholder) {
        (Some(n), Some(s)) => Ok(NewAccount { name: n, stakeholder: s }),
        (None, _) => Err(MissingField::Name),
        (Some(_), None) => Err(MissingField::Stakeholder),
    }
}

impl NewAccount {
    /// Builds a creation request from the fields of a request body, or names the
    /// first required field that is absent.
    pub fn decode(name: Option<String>, stakeholder: Option<String>) -> (r: Result<NewAccount, MissingField>)
        ensures
            r == decode_spec(name, stakeholder),
    {
        match name {
            None => Err(MissingField::Name),
            Some(n) => match stakeholder {
                None => Err(MissingField::Stakeholder),
                Some(s) => Ok(NewAccount { name: n, stakeholder: s }),
            },
        }
    }
}

/// The text that reports a missing field to the client.
pub open spec fn missing_field_text(field: MissingField) -> Seq<char> {
    match field {
        MissingField::Name => "missing field `name`"@,
        MissingField::Stakeholder => "missing field `stakeholder`"@,
    }
}

impl MissingField {
    /// The text that reports this missing field to the client.
    pub fn message(&self) -> (r: String)
        ensures
            r@ == missing_field_text(*self),
    {
        match self {
            MissingField::Name => String::from_str("missing field `name`"),
            MissingField::Stakeholder => String::from_str("missing field `stakeholder`"),
        }
    }
}

} // verus!
