use vstd::prelude::*;

verus! {

/// One key/value pair of a metadata block in the compiler's JSON
/// description of a DSP.
#[derive(Clone, Debug, PartialEq, Eq)]
pub struct Meta {
    pub key: String,
    pub value: String,
}

/// Why a metadata dictionary does not yield a `Meta` pair.
#[derive(Clone, Copy, Debug, PartialEq, Eq, Structural)]
pub enum MetaError {
    /// The dictionary held no entry at all.
    Empty,
    /// Its first entry had no value.
    MissingValue,
}

impl Meta {
    /// The pair a metadata dictionary denotes: its first entry.  The JSON
    /// layer hands the dictionary in as a list of entries; an empty
    /// dictionary, or a first entry without a value, is rejected.
    pub fn from_entries(entries: &Vec<(String, Option<String>)>) -> (r: Result<Meta, MetaError>)
        ensures
            match r {
                Ok(m) => entries@.len() > 0 && (entries@[0].1 matches Some(v) && m.key@
                    == entries@[0].0@ && m.value@ == v@),
                Err(MetaError::Empty) => entries@.len() == 0,
                Err(MetaError::MissingValue) => entries@.len() > 0 && entries@[0].1 is None,
            },
    {
        if entries.len() == 0 {
            return Err(MetaError::Empty);
        }
        match &entries[0] {
            (key, Some(value)) => Ok(Meta { key: key.clone(), value: value.clone() }),
            (_, None) => Err(MetaError::MissingValue),
        }
    }
}

} // verus!
