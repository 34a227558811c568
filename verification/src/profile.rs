//! The catalog record type and its mathematical model.

use vstd::prelude::*;

verus! {

/// One catalog entry: match criteria, packages and install/remove
/// behavior for a class of devices.
///
/// The six id-list fields are always materialized (absence in the source
/// becomes an empty list); `packages` and the two scripts keep their
/// optionality, an absent value being distinct from an empty one.
#[derive(Debug, PartialEq)]
pub struct Profile {
    pub codename: String,
    pub i18n_desc: String,
    pub icon_name: String,
    pub class_ids: Vec<String>,
    pub vendor_ids: Vec<String>,
    pub device_ids: Vec<String>,
    pub blacklisted_class_ids: Vec<String>,
    pub blacklisted_vendor_ids: Vec<String>,
    pub blacklisted_device_ids: Vec<String>,
    pub packages: Option<Vec<String>>,
    pub install_script: Option<String>,
    pub remove_script: Option<String>,
    pub experimental: bool,
    pub removable: bool,
    pub priority: i64,
}

/// The model of a [`Profile`]: every string as its character sequence.
pub ghost struct ProfileModel {
    pub codename: Seq<char>,
    pub i18n_desc: Seq<char>,
    pub icon_name: Seq<char>,
    pub class_ids: Seq<Seq<char>>,
    pub vendor_ids: Seq<Seq<char>>,
    pub device_ids: Seq<Seq<char>>,
    pub blacklisted_class_ids: Seq<Seq<char>>,
    pub blacklisted_vendor_ids: Seq<Seq<char>>,
    pub blacklisted_device_ids: Seq<Seq<char>>,
    pub packages: Option<Seq<Seq<char>>>,
    pub install_script: Option<Seq<char>>,
    pub remove_script: Option<Seq<char>>,
    pub experimental: bool,
    pub removable: bool,
    pub priority: i64,
}

/// The character sequences of a list of strings.
pub open spec fn str_seqs(s: Seq<String>) -> Seq<Seq<char>> {
    s.map_values(|x: String| x@)
}

/// The model of an optional string list.
pub open spec fn opt_str_seqs(o: Option<Vec<String>>) -> Option<Seq<Seq<char>>> {
    match o {
        Some(v) => Some(str_seqs(v@)),
        None => None,
    }
}

/// The model of an optional string.
pub open spec fn opt_str_seq(o: Option<String>) -> Option<Seq<char>> {
    match o {
        Some(s) => Some(s@),
        None => None,
    }
}

impl View for Profile {
    type V = ProfileModel;

    open spec fn view(&self) -> ProfileModel {
        ProfileModel {
            codename: self.codename@,
            i18n_desc: self.i18n_desc@,
            icon_name: self.icon_name@,
            class_ids: str_seqs(self.class_ids@),
            vendor_ids: str_seqs(self.vendor_ids@),
            device_ids: str_seqs(self.device_ids@),
            blacklisted_class_ids: str_seqs(self.blacklisted_class_ids@),
            blacklisted_vendor_ids: str_seqs(self.blacklisted_vendor_ids@),
            blacklisted_device_ids: str_seqs(self.blacklisted_device_ids@),
            packages: opt_str_seqs(self.packages),
            install_script: opt_str_seq(self.install_script),
            remove_script: opt_str_seq(self.remove_script),
            experimental: self.experimental,
            removable: self.removable,
            priority: self.priority,
        }
    }
}

/// The models of a list of profiles.
pub open spec fn models(s: Seq<Profile>) -> Seq<ProfileModel> {
    s.map_values(|p: Profile| p@)
}

} // verus!
