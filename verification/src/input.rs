//! Reading entries from a YAML document.
//!
//! The document is a sequence of mappings, each with required string fields
//! `name`, `value` and `description` and required boolean field `is_secure`.
//! The YAML text itself is parsed by the `yaml_rust` crate behind one
//! trusted reader, whose deterministic result carries the name
//! [`spec_raw_rows`]; which fields each mapping must carry, and what a
//! missing one means, is this module's own, verified logic.

use vstd::prelude::*;
use vstd::string::StringExecFns;

use crate::parameter::Parameter;

verus! {

/// A required field of an entry mapping that turned out to be absent or of
/// the wrong kind.
#[derive(Clone, Copy, Debug, PartialEq, Eq, Structural)]
pub enum EntryField {
    /// The `name` field.
    Name,
    /// The `value` field.
    Value,
    /// The `description` field.
    Description,
    /// The `is_secure` field.
    IsSecure,
}

impl EntryField {
    /// The field's name as it stands in the document.
    pub open spec fn spec_label(self) -> Seq<char> {
        match self {
            EntryField::Name => "name"@,
            EntryField::Value => "value"@,
            EntryField::Description => "description"@,
            EntryField::IsSecure => "is_secure"@,
        }
    }

    /// Returns the field's name as it stands in the document.
    pub fn label(&self) -> (r: String)
        ensures
            r@ == self.spec_label(),
    {
        match self {
            EntryField::Name => "name".to_owned(),
            EntryField::Value => "value".to_owned(),
            EntryField::Description => "description".to_owned(),
            EntryField::IsSecure => "is_secure".to_owned(),
        }
    }
}

/// A fatal fault in the input document. No store interaction happens after
/// one: the run aborts before any fetch or write.
#[derive(Clone, Debug, PartialEq)]
pub enum InputError {
    /// The text is no well-formed YAML at all.
    Malformed {
        /// The scanner's diagnostic, passed through opaquely.
        message: String,
    },
    /// An entry mapping lacks a required field, or holds it with the wrong
    /// kind of value.
    FieldMissing {
        /// The first field found wanting, checked in document order: `name`,
        /// `value`, `description`, `is_secure`.
        field: EntryField,
    },
}

impl InputError {
    /// The diagnostic text of this fault.
    pub open spec fn spec_message(self) -> Seq<char> {
        match self {
            InputError::Malformed { message } => message@,
            InputError::FieldMissing { field } => "missing required field: "@ + field.spec_label(),
        }
    }

    /// Returns the diagnostic text of this fault.
    pub fn message(&self) -> (r: String)
        ensures
            r@ == self.spec_message(),
    {
        match self {
            InputError::Malformed { message } => message.clone(),
            InputError::FieldMissing { field } => "missing required field: ".to_owned().concat(
                field.label().as_str(),
            ),
        }
    }
}

/// One entry mapping as found in the document: each required field either
/// read successfully or absent.
#[derive(Clone, Debug, PartialEq)]
pub struct RawEntry {
    /// The `name` field, if present as a string.
    pub name: Option<String>,
    /// The `value` field, if present as a string.
    pub value: Option<String>,
    /// The `description` field, if present as a string.
    pub description: Option<String>,
    /// The `is_secure` field, if present as a boolean.
    pub is_secure: Option<bool>,
}

/// The entry a raw mapping denotes: its four fields, verbatim, when all are
/// present; otherwise the first missing field, in the order `name`, `value`,
/// `description`, `is_secure`.
pub open spec fn spec_parameter_from_raw(raw: RawEntry) -> Result<Parameter, InputError> {
    match raw.name {
        Option::None => Result::Err(InputError::FieldMissing { field: EntryField::Name }),
        Option::Some(name) => match raw.value {
            Option::None => Result::Err(InputError::FieldMissing { field: EntryField::Value }),
            Option::Some(value) => match raw.description {
                Option::None => Result::Err(
                    InputError::FieldMissing { field: EntryField::Description },
                ),
                Option::Some(description) => match raw.is_secure {
                    Option::None => Result::Err(
                        InputError::FieldMissing { field: EntryField::IsSecure },
                    ),
                    Option::Some(is_secure) => Result::Ok(
                        Parameter { name, value, description, is_secure },
                    ),
                },
            },
        },
    }
}

/// Turns one raw mapping into an entry, or reports the first missing field.
pub fn parameter_from_raw(raw: &RawEntry) -> (r: Result<Parameter, InputError>)
    ensures
        r == spec_parameter_from_raw(*raw),
{
    match &raw.name {
        Option::None => Err(InputError::FieldMissing { field: EntryField::Name }),
        Option::Some(name) => match &raw.value {
            Option::None => Err(InputError::FieldMissing { field: EntryField::Value }),
            Option::Some(value) => match &raw.description {
                Option::None => Err(InputError::FieldMissing { field: EntryField::Description }),
                Option::Some(description) => match raw.is_secure {
                    Option::None => Err(InputError::FieldMissing { field: EntryField::IsSecure }),
                    Option::Some(is_secure) => Ok(
                        Parameter {
                            name: name.clone(),
                            value: value.clone(),
                            description: description.clone(),
                            is_secure,
                        },
                    ),
                },
            },
        },
    }
}

/// The entries a sequence of raw mappings denotes: each mapping converted in
/// order, or the fault of the first mapping found wanting.
pub open spec fn spec_parameters_from_raw(rows: Seq<RawEntry>) -> Result<Seq<Parameter>, InputError>
    decreases rows.len(),
{
    if rows.len() == 0 {
        Result::Ok(Seq::empty())
    } else {
        match spec_parameters_from_raw(rows.drop_last()) {
            Result::Err(e) => Result::Err(e),
            Result::Ok(ps) => match spec_parameter_from_raw(rows.last()) {
                Result::Err(e) => Result::Err(e),
                Result::Ok(p) => Result::Ok(ps.push(p)),
            },
        }
    }
}

/// A fault in one mapping decides the whole sequence: when every mapping
/// before position `i` is sound and the mapping at `i` is not, the sequence
/// converts to exactly the fault at `i` — the first fault, in document
/// order, is the one reported.
pub proof fn lemma_first_fault_decides(rows: Seq<RawEntry>, i: int)
    requires
        0 <= i < rows.len(),
        spec_parameters_from_raw(rows.subrange(0, i)) is Ok,
        spec_parameter_from_raw(rows[i]) is Err,
    ensures
        spec_parameters_from_raw(rows) == Result::<Seq<Parameter>, InputError>::Err(
            spec_parameter_from_raw(rows[i])->Err_0,
        ),
    decreases rows.len(),
{
    if i + 1 == rows.len() {
        assert(rows.drop_last() =~= rows.subrange(0, i));
    } else {
        assert(rows.drop_last().subrange(0, i) =~= rows.subrange(0, i));
        lemma_first_fault_decides(rows.drop_last(), i);
    }
}

/// A document holding any mapping that lacks a required field yields no
/// entries at all: the conversion of its rows fails as a whole. Together
/// with the contract of [`read_parameters_yaml`], a read of such a text
/// reports an input fault and hands back nothing a sync run could start
/// from — the run aborts before any store interaction.
pub proof fn lemma_faulty_mapping_aborts_the_read(rows: Seq<RawEntry>, i: int)
    requires
        0 <= i < rows.len(),
        spec_parameter_from_raw(rows[i]) is Err,
    ensures
        spec_parameters_from_raw(rows) is Err,
    decreases rows.len(),
{
    if i + 1 == rows.len() {
        assert(rows.last() == rows[i]);
    } else {
        lemma_faulty_mapping_aborts_the_read(rows.drop_last(), i);
        assert(rows.drop_last()[i] == rows[i]);
    }
}

/// Turns the raw mappings into entries, in order, or reports the fault of
/// the first mapping found wanting.
pub fn parameters_from_raw(rows: &Vec<RawEntry>) -> (r: Result<Vec<Parameter>, InputError>)
    ensures
        (match r {
            Ok(entries) => spec_parameters_from_raw(rows@) == Result::<
                Seq<Parameter>,
                InputError,
            >::Ok(entries@),
            Err(e) => spec_parameters_from_raw(rows@) == Result::<
                Seq<Parameter>,
                InputError,
            >::Err(e),
        }),
{
    let mut entries: Vec<Parameter> = Vec::new();
    let mut i: usize = 0;
    proof {
        assert(rows@.subrange(0, 0) =~= Seq::<RawEntry>::empty());
    }
    while i < rows.len()
        invariant
            i <= rows.len(),
            spec_parameters_from_raw(rows@.subrange(0, i as int)) == Result::<
                Seq<Parameter>,
                InputError,
            >::Ok(entries@),
        decreases rows.len() - i,
    {
        match parameter_from_raw(&rows[i]) {
            Err(e) => {
                proof {
                    lemma_first_fault_decides(rows@, i as int);
                }
                return Err(e);
            },
            Ok(p) => {
                entries.push(p);
            },
        }
        i = i + 1;
        proof {
            assert(rows@.subrange(0, i as int).drop_last() =~= rows@.subrange(0, i - 1));
            assert(rows@.subrange(0, i as int).last() == rows@[i - 1]);
        }
    }
    proof {
        assert(rows@.subrange(0, rows@.len() as int) =~= rows@);
    }
    Ok(entries)
}

/// The entry rows a YAML text parses to, one per mapping of each document's
/// array, flattened in document order — or nothing, for text that is no
/// well-formed YAML. Parsing is deterministic: the rows depend on the text
/// alone. This names the result of the trusted reader below; no contract
/// says what the rows are on given text, so a check on given text reaches
/// the field logic only through [`spec_parameters_from_raw`].
pub uninterp spec fn spec_raw_rows(text: Seq<char>) -> Option<Seq<RawEntry>>;

/// Relies on `yaml_rust::YamlLoader::load_from_str` and the crate's node
/// readers — its `Index<&str>` impl (the bad-value marker for an absent key
/// or a non-mapping node), `Yaml::as_str`, `Yaml::as_bool`, and its
/// document iteration (an array's elements, nothing for any other node):
/// parses the text and reads the four entry fields off each mapping, in
/// document order, exactly the rows named by [`spec_raw_rows`]; fails, with
/// the scanner's diagnostic, precisely on text that is no well-formed YAML.
#[verifier::external_body]
fn load_raw_rows(text: &str) -> (r: Result<Vec<RawEntry>, String>)
    ensures
        (r is Ok) == (spec_raw_rows(text@) is Some),
        r matches Ok(rows) ==> spec_raw_rows(text@) == Some(rows@),
{
    let docs = yaml_rust::YamlLoader::load_from_str(text).map_err(|e| e.to_string())?;
    Ok(docs.into_iter().flat_map(|doc| doc.into_iter()).map(|node| RawEntry {
        name: node["name"].as_str().map(str::to_owned),
        value: node["value"].as_str().map(str::to_owned),
        description: node["description"].as_str().map(str::to_owned),
        is_secure: node["is_secure"].as_bool(),
    }).collect())
}

/// Reads entries from a YAML text: every document's array of entry mappings,
/// flattened in document order, each converted to a [`Parameter`] with its
/// fields verbatim — or the fault that stops the whole read, before any
/// store interaction: text that is no well-formed YAML, or the first
/// mapping lacking a required field. The result is exactly the conversion
/// [`spec_parameters_from_raw`] applied to the rows the parse reads off the
/// text, [`spec_raw_rows`].
pub fn read_parameters_yaml(text: &str) -> (r: Result<Vec<Parameter>, InputError>)
    ensures
        (match spec_raw_rows(text@) {
            Option::None => r matches Err(e) && e is Malformed,
            Option::Some(rows) => match spec_parameters_from_raw(rows) {
                Result::Ok(entries) => r matches Ok(v) && v@ == entries,
                Result::Err(e) => r == Result::<Vec<Parameter>, InputError>::Err(e),
            },
        }),
{
    match load_raw_rows(text) {
        Err(message) => Err(InputError::Malformed { message }),
        Ok(rows) => parameters_from_raw(&rows),
    }
}

} // verus!
