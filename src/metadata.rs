//! Metadata records: a name and an optional configuration.
use vstd::prelude::*;
use vstd::string::*;

verus! {

/// What a metadata record holds: its name, and its configuration as a list of
/// fields, each a key and a string value.
pub struct MetadataModel {
    pub name: Seq<char>,
    pub configuration: Option<Seq<(Seq<char>, Seq<char>)>>,
}

/// The fields of a configuration, as key and value strings.
pub open spec fn fields_model(c: Seq<(String, String)>) -> Seq<(Seq<char>, Seq<char>)> {
    Seq::new(c.len(), |i: int| (c[i].0@, c[i].1@))
}

/// A metadata record of a pluggable transform: its name, and an optional
/// configuration whose fields are key and value strings.
#[derive(Debug)]
pub struct MetadataV3 {
    name: String,
    configuration: Option<Vec<(String, String)>>,
}

impl View for MetadataV3 {
    type V = MetadataModel;

    closed spec fn view(&self) -> MetadataModel {
        MetadataModel {
            name: self.name@,
            configuration: match self.configuration {
                Some(c) => Some(fields_model(c@)),
                None => None,
            },
        }
    }
}

/// A copy of the fields `c`.
fn copy_fields(c: &Vec<(String, String)>) -> (r: Vec<(String, String)>)
    ensures
        fields_model(r@) == fields_model(c@),
{
    let mut r: Vec<(String, String)> = Vec::new();
    let mut i: usize = 0;
    while i < c.len()
        invariant
            i <= c@.len(),
            r@.len() == i,
            forall|j: int| 0 <= j < i ==> r@[j].0@ == c@[j].0@ && r@[j].1@ == c@[j].1@,
        decreases c@.len() - i,
    {
        let key = c[i].0.clone();
        let value = c[i].1.clone();
        r.push((key, value));
        i = i + 1;
    }
    assert(fields_model(r@) =~= fields_model(c@));
    r
}

impl MetadataV3 {
    /// Creates a record named `name` with no configuration.
    pub fn new(name: &str) -> (r: MetadataV3)
        ensures
            r@.name == name@,
            r@.configuration is None,
    {
        MetadataV3 { name: String::from_str(name), configuration: None }
    }

    /// Creates a record named `name` with the configuration fields `configuration`.
    pub fn new_with_configuration(name: &str, configuration: Vec<(String, String)>) -> (r:
        MetadataV3)
        ensures
            r@.name == name@,
            r@.configuration == Some(fields_model(configuration@)),
    {
        MetadataV3 { name: String::from_str(name), configuration: Some(configuration) }
    }

    /// The name of the record.
    pub fn name(&self) -> (r: &str)
        ensures
            r@ == self@.name,
    {
        self.name.as_str()
    }

    /// The configuration fields of the record, if it has a configuration.
    pub fn configuration(&self) -> (r: Option<&Vec<(String, String)>>)
        ensures
            match r {
                Some(c) => self@.configuration == Some(fields_model(c@)),
                None => self@.configuration is None,
            },
    {
        match &self.configuration {
            Some(c) => Some(c),
            None => None,
        }
    }

    /// Whether the record has no configuration, or one without fields.
    pub fn configuration_is_none_or_empty(&self) -> (r: bool)
        ensures
            r == match self@.configuration {
                Some(c) => c.len() == 0,
                None => true,
            },
    {
        match &self.configuration {
            Some(c) => c.len() == 0,
            None => true,
        }
    }

    /// A copy of this record.
    pub fn copy(&self) -> (r: MetadataV3)
        ensures
            r@ == self@,
    {
        let configuration = match &self.configuration {
            Some(c) => Some(copy_fields(c)),
            None => None,
        };
        MetadataV3 { name: self.name.clone(), configuration }
    }
}

} // verus!
