//! IEEE Registration Authority public listings folded into `ieee-oui.txt`.

use vstd::prelude::*;

verus! {

/// One IEEE MAC registry fetched and folded into `ieee-oui.txt`.
#[derive(Debug, Clone, Copy, PartialEq, Eq, Hash, Structural)]
pub enum IeeeMacRegistry {
    /// MAC Address Block Large (OUI / 24-bit / 6 hex digits).
    MaL,
    /// MAC Address Block Medium (28-bit / 7 hex digits).
    MaM,
    /// MAC Address Block Small (OUI-36 / 36-bit / 9 hex digits).
    MaS,
    /// Individual Address Block (legacy 36-bit / 9 hex digits).
    Iab,
}

/// The registries in the order their sections appear in `ieee-oui.txt`.
pub open spec fn registry_order() -> Seq<IeeeMacRegistry> {
    seq![IeeeMacRegistry::MaL, IeeeMacRegistry::MaM, IeeeMacRegistry::MaS, IeeeMacRegistry::Iab]
}

impl IeeeMacRegistry {
    /// Registries emitted into `ieee-oui.txt`, in file order.
    pub const ALL: [IeeeMacRegistry; 4] = [
        IeeeMacRegistry::MaL,
        IeeeMacRegistry::MaM,
        IeeeMacRegistry::MaS,
        IeeeMacRegistry::Iab,
    ];

    /// Official IEEE CSV URL of the registry.
    pub open spec fn url(self) -> Seq<char> {
        match self {
            IeeeMacRegistry::MaL => "https://standards-oui.ieee.org/oui/oui.csv"@,
            IeeeMacRegistry::MaM => "https://standards-oui.ieee.org/oui28/mam.csv"@,
            IeeeMacRegistry::MaS => "https://standards-oui.ieee.org/oui36/oui36.csv"@,
            IeeeMacRegistry::Iab => "https://standards-oui.ieee.org/iab/iab.csv"@,
        }
    }

    /// `Registry` column value of the registry in the official CSV.
    pub open spec fn label(self) -> Seq<char> {
        match self {
            IeeeMacRegistry::MaL => "MA-L"@,
            IeeeMacRegistry::MaM => "MA-M"@,
            IeeeMacRegistry::MaS => "MA-S"@,
            IeeeMacRegistry::Iab => "IAB"@,
        }
    }

    /// Number of hexadecimal digits of an assignment of the registry.
    pub open spec fn hex_width(self) -> nat {
        match self {
            IeeeMacRegistry::MaL => 6,
            IeeeMacRegistry::MaM => 7,
            IeeeMacRegistry::MaS => 9,
            IeeeMacRegistry::Iab => 9,
        }
    }

    /// Local CSV file name of the registry.
    pub open spec fn file_name(self) -> Seq<char> {
        match self {
            IeeeMacRegistry::MaL => "oui.csv"@,
            IeeeMacRegistry::MaM => "mam.csv"@,
            IeeeMacRegistry::MaS => "oui36.csv"@,
            IeeeMacRegistry::Iab => "iab.csv"@,
        }
    }

    /// Official IEEE CSV URL for this registry.
    pub fn csv_url(self) -> (url: &'static str)
        ensures
            url@ == self.url(),
    {
        match self {
            IeeeMacRegistry::MaL => "https://standards-oui.ieee.org/oui/oui.csv",
            IeeeMacRegistry::MaM => "https://standards-oui.ieee.org/oui28/mam.csv",
            IeeeMacRegistry::MaS => "https://standards-oui.ieee.org/oui36/oui36.csv",
            IeeeMacRegistry::Iab => "https://standards-oui.ieee.org/iab/iab.csv",
        }
    }

    /// `Registry` column value in the official CSV.
    pub fn csv_registry_label(self) -> (label: &'static str)
        ensures
            label@ == self.label(),
    {
        match self {
            IeeeMacRegistry::MaL => "MA-L",
            IeeeMacRegistry::MaM => "MA-M",
            IeeeMacRegistry::MaS => "MA-S",
            IeeeMacRegistry::Iab => "IAB",
        }
    }

    /// Hexadecimal digit count of `Assignment` after stripping IEEE separators.
    pub fn assignment_hex_digit_count(self) -> (width: usize)
        ensures
            width == self.hex_width(),
    {
        match self {
            IeeeMacRegistry::MaL => 6,
            IeeeMacRegistry::MaM => 7,
            IeeeMacRegistry::MaS => 9,
            IeeeMacRegistry::Iab => 9,
        }
    }

    /// The registry's label as an owned string, as operators see it in messages.
    pub fn to_display_string(self) -> (text: String)
        ensures
            text@ == self.label(),
    {
        let mut text = String::new();
        text.append(self.csv_registry_label());
        text
    }

    /// Local file name used with `--from-dir` (and as the curl output name).
    pub fn csv_file_name(self) -> (name: &'static str)
        ensures
            name@ == self.file_name(),
    {
        match self {
            IeeeMacRegistry::MaL => "oui.csv",
            IeeeMacRegistry::MaM => "mam.csv",
            IeeeMacRegistry::MaS => "oui36.csv",
            IeeeMacRegistry::Iab => "iab.csv",
        }
    }
}

} // verus!
