//! The bodies of the requests.

use vstd::prelude::*;
use crate::enums::SettingsValueType;
use crate::errors::{CustomError, CustomErrorView};
use crate::models::settings::{
    check_lengths, length_rejection, settings_are_valid, settings_rejection, validate_settings,
    key_length_is_valid, value_length_is_valid,
};

verus! {

/// The body of a request that creates a setting.
#[derive(Clone, Debug)]
pub struct SettingsRequest {
    pub key: String,
    pub value: String,
    pub value_type: SettingsValueType,
}

/// A [`SettingsRequest`] with its texts as sequences of characters.
pub ghost struct SettingsRequestView {
    pub key: Seq<char>,
    pub value: Seq<char>,
    pub value_type: SettingsValueType,
}

impl View for SettingsRequest {
    type V = SettingsRequestView;

    open spec fn view(&self) -> SettingsRequestView {
        SettingsRequestView { key: self.key@, value: self.value@, value_type: self.value_type }
    }
}

impl SettingsRequestView {
    /// The setting that the request states may be written.
    pub open spec fn is_valid(self) -> bool {
        settings_are_valid(self.key, self.value, self.value_type)
    }

    /// The failure that rejects the request, if its setting may not be
    /// written.
    pub open spec fn rejection(self) -> Option<CustomErrorView> {
        settings_rejection(self.key, self.value, self.value_type)
    }
}

impl SettingsRequest {
    /// Accepts the request where its setting may be written: the key takes
    /// 1 to 1024 bytes, the value 1 to 4194304 bytes, and the value is
    /// written in the form of the type. Rejects it with the first of these
    /// rules that it breaks.
    pub fn validate(&self) -> (checked: Result<(), CustomError>)
        ensures
            checked is Ok <==> self@.is_valid(),
            match checked {
                Ok(_) => self@.rejection() is None,
                Err(e) => self@.rejection() == Some(e@),
            },
    {
        validate_settings(self.key.as_str(), self.value.as_str(), self.value_type)
    }
}

/// The body of a request that gives a setting a new value.
#[derive(Clone, Debug)]
pub struct UpdateSettingsRequest {
    pub key: String,
    pub value: String,
}

/// An [`UpdateSettingsRequest`] with its texts as sequences of characters.
pub ghost struct UpdateSettingsRequestView {
    pub key: Seq<char>,
    pub value: Seq<char>,
}

impl View for UpdateSettingsRequest {
    type V = UpdateSettingsRequestView;

    open spec fn view(&self) -> UpdateSettingsRequestView {
        UpdateSettingsRequestView { key: self.key@, value: self.value@ }
    }
}

impl UpdateSettingsRequestView {
    /// The lengths of the key and of the new value are in bounds.
    pub open spec fn is_valid(self) -> bool {
        key_length_is_valid(self.key) && value_length_is_valid(self.value)
    }

    /// The failure that rejects the request for the length of its key or of
    /// its value.
    pub open spec fn rejection(self) -> Option<CustomErrorView> {
        length_rejection(self.key, self.value)
    }
}

impl UpdateSettingsRequest {
    /// Accepts the request where the lengths of its key and of its value are
    /// in bounds. Whether the value has the form of the setting's type is
    /// known only once the setting has been read.
    pub fn validate(&self) -> (checked: Result<(), CustomError>)
        ensures
            checked is Ok <==> self@.is_valid(),
            match checked {
                Ok(_) => self@.rejection() is None,
                Err(e) => self@.rejection() == Some(e@),
            },
    {
        check_lengths(self.key.as_str(), self.value.as_str())
    }
}

/// The body of a request that deletes settings.
#[derive(Clone, Debug)]
pub struct DeleteSettingsByKeysRequest {
    pub keys: Vec<String>,
}

/// The body of a request that asks whether a token is the API key.
#[derive(Clone, Debug)]
pub struct ValidateTokenRequest {
    pub token: String,
}

} // verus!
