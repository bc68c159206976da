use vstd::prelude::*;
use vstd::std_specs::convert::FromSpecImpl;
use vstd::string::StringExecFns;
use crate::utils::text::same_text;

verus! {

/// The type a setting's value is declared to have. It is fixed when the
/// setting is created.
#[derive(Clone, Copy, Debug, PartialEq, Eq, Structural)]
pub enum SettingsValueType {
    Str,
    Int,
    Float,
    Bool,
    Json,
}

impl SettingsValueType {
    /// The lower-case name under which the type is written in requests and
    /// in stored records.
    pub open spec fn name(self) -> Seq<char> {
        match self {
            SettingsValueType::Str => "str"@,
            SettingsValueType::Int => "int"@,
            SettingsValueType::Float => "float"@,
            SettingsValueType::Bool => "bool"@,
            SettingsValueType::Json => "json"@,
        }
    }

    /// The type that `name` names, if it names one.
    pub open spec fn from_name(name: Seq<char>) -> Option<SettingsValueType> {
        if name == "int"@ {
            Some(SettingsValueType::Int)
        } else if name == "str"@ {
            Some(SettingsValueType::Str)
        } else if name == "bool"@ {
            Some(SettingsValueType::Bool)
        } else if name == "float"@ {
            Some(SettingsValueType::Float)
        } else if name == "json"@ {
            Some(SettingsValueType::Json)
        } else {
            None
        }
    }

    /// Each type is the one that its own name names.
    pub proof fn lemma_name_names_the_type(self)
        ensures
            Self::from_name(self.name()) == Some(self),
    {
        reveal_strlit("int");
        reveal_strlit("str");
        reveal_strlit("bool");
        reveal_strlit("float");
        reveal_strlit("json");
        assert("int"@[0] == 'i' && "str"@[0] == 's' && "bool"@[0] == 'b' && "float"@[0] == 'f'
            && "json"@[0] == 'j');
    }

    /// The name of the type.
    pub fn as_str(&self) -> (name: &'static str)
        ensures
            name@ == self.name(),
    {
        match self {
            SettingsValueType::Str => "str",
            SettingsValueType::Int => "int",
            SettingsValueType::Float => "float",
            SettingsValueType::Bool => "bool",
            SettingsValueType::Json => "json",
        }
    }

    /// The name of the type, as an owned text.
    pub fn to_string(&self) -> (name: String)
        ensures
            name@ == self.name(),
    {
        String::from_str(self.as_str())
    }

    /// The type that `name` names; `None` for any other text.
    pub fn parse(name: &str) -> (value_type: Option<SettingsValueType>)
        ensures
            value_type == Self::from_name(name@),
    {
        if same_text(name, "int") {
            Some(SettingsValueType::Int)
        } else if same_text(name, "str") {
            Some(SettingsValueType::Str)
        } else if same_text(name, "bool") {
            Some(SettingsValueType::Bool)
        } else if same_text(name, "float") {
            Some(SettingsValueType::Float)
        } else if same_text(name, "json") {
            Some(SettingsValueType::Json)
        } else {
            None
        }
    }
}

impl From<String> for SettingsValueType {
    /// The type that `value` names; a text that names none is taken for the
    /// string type.
    fn from(value: String) -> (value_type: SettingsValueType) {
        match SettingsValueType::parse(value.as_str()) {
            Some(value_type) => value_type,
            None => SettingsValueType::Str,
        }
    }
}

impl FromSpecImpl<String> for SettingsValueType {
    open spec fn obeys_from_spec() -> bool {
        true
    }

    open spec fn from_spec(value: String) -> SettingsValueType {
        match SettingsValueType::from_name(value@) {
            Some(value_type) => value_type,
            None => SettingsValueType::Str,
        }
    }
}

} // verus!
