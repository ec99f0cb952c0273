//! Inscription protocol types

use crate::text::str_eq;
use vstd::prelude::*;
use vstd::std_specs::convert::{FromSpecImpl, TryFromSpecImpl};

verus! {

/// A known protocol
#[derive(Debug, Clone, Copy, PartialEq, Eq, Structural)]
#[allow(missing_docs, non_camel_case_types)]
pub enum NamedProtocol {
    Bsc_20,
    Asc_20,
    Prc_20,
    Zrc_20,
    Erc_20,
    Grc_20,
    Fair_20,
    Oprc_20,
    Osc_20,
    Brc_20,
    Frc_20,
    Nirc_20,
    Zsc_20,
    Vims_20,
    Era_20,
    Bnb_48,
    Gno_20,
    Terc_20,
    Nrc_20,
    Bep_20,
    Bnb_20,
    Cls_20,
    Base_20,
    Erc_cash,
    Bnbs_20,
    Ftm_20,
}

/// Why a text could not be read as a [`NamedProtocol`].
#[derive(Debug, Clone, Copy, PartialEq, Eq, Structural)]
pub enum ParseError {
    /// The text is the name of no known protocol.
    VariantNotFound,
}

impl NamedProtocol {
    /// How many protocols are known.
    pub const COUNT: usize = 26;

    /// The protocol's name: its identifier in kebab case.
    pub open spec fn name(self) -> Seq<char> {
        match self {
            NamedProtocol::Bsc_20 => "bsc-20"@,
            NamedProtocol::Asc_20 => "asc-20"@,
            NamedProtocol::Prc_20 => "prc-20"@,
            NamedProtocol::Zrc_20 => "zrc-20"@,
            NamedProtocol::Erc_20 => "erc-20"@,
            NamedProtocol::Grc_20 => "grc-20"@,
            NamedProtocol::Fair_20 => "fair-20"@,
            NamedProtocol::Oprc_20 => "oprc-20"@,
            NamedProtocol::Osc_20 => "osc-20"@,
            NamedProtocol::Brc_20 => "brc-20"@,
            NamedProtocol::Frc_20 => "frc-20"@,
            NamedProtocol::Nirc_20 => "nirc-20"@,
            NamedProtocol::Zsc_20 => "zsc-20"@,
            NamedProtocol::Vims_20 => "vims-20"@,
            NamedProtocol::Era_20 => "era-20"@,
            NamedProtocol::Bnb_48 => "bnb-48"@,
            NamedProtocol::Gno_20 => "gno-20"@,
            NamedProtocol::Terc_20 => "terc-20"@,
            NamedProtocol::Nrc_20 => "nrc-20"@,
            NamedProtocol::Bep_20 => "bep-20"@,
            NamedProtocol::Bnb_20 => "bnb-20"@,
            NamedProtocol::Cls_20 => "cls-20"@,
            NamedProtocol::Base_20 => "base-20"@,
            NamedProtocol::Erc_cash => "erc-cash"@,
            NamedProtocol::Bnbs_20 => "bnbs-20"@,
            NamedProtocol::Ftm_20 => "ftm-20"@,
        }
    }

    /// The known protocol with the given name, if there is one. Names are
    /// matched exactly, letter case included.
    pub open spec fn named(s: Seq<char>) -> Option<NamedProtocol> {
        if s == "bsc-20"@ {
            Some(NamedProtocol::Bsc_20)
        } else if s == "asc-20"@ {
            Some(NamedProtocol::Asc_20)
        } else if s == "prc-20"@ {
            Some(NamedProtocol::Prc_20)
        } else if s == "zrc-20"@ {
            Some(NamedProtocol::Zrc_20)
        } else if s == "erc-20"@ {
            Some(NamedProtocol::Erc_20)
        } else if s == "grc-20"@ {
            Some(NamedProtocol::Grc_20)
        } else if s == "fair-20"@ {
            Some(NamedProtocol::Fair_20)
        } else if s == "oprc-20"@ {
            Some(NamedProtocol::Oprc_20)
        } else if s == "osc-20"@ {
            Some(NamedProtocol::Osc_20)
        } else if s == "brc-20"@ {
            Some(NamedProtocol::Brc_20)
        } else if s == "frc-20"@ {
            Some(NamedProtocol::Frc_20)
        } else if s == "nirc-20"@ {
            Some(NamedProtocol::Nirc_20)
        } else if s == "zsc-20"@ {
            Some(NamedProtocol::Zsc_20)
        } else if s == "vims-20"@ {
            Some(NamedProtocol::Vims_20)
        } else if s == "era-20"@ {
            Some(NamedProtocol::Era_20)
        } else if s == "bnb-48"@ {
            Some(NamedProtocol::Bnb_48)
        } else if s == "gno-20"@ {
            Some(NamedProtocol::Gno_20)
        } else if s == "terc-20"@ {
            Some(NamedProtocol::Terc_20)
        } else if s == "nrc-20"@ {
            Some(NamedProtocol::Nrc_20)
        } else if s == "bep-20"@ {
            Some(NamedProtocol::Bep_20)
        } else if s == "bnb-20"@ {
            Some(NamedProtocol::Bnb_20)
        } else if s == "cls-20"@ {
            Some(NamedProtocol::Cls_20)
        } else if s == "base-20"@ {
            Some(NamedProtocol::Base_20)
        } else if s == "erc-cash"@ {
            Some(NamedProtocol::Erc_cash)
        } else if s == "bnbs-20"@ {
            Some(NamedProtocol::Bnbs_20)
        } else if s == "ftm-20"@ {
            Some(NamedProtocol::Ftm_20)
        } else {
            None
        }
    }

    /// The protocol's position in the order in which the protocols are declared.
    pub open spec fn index(self) -> int {
        match self {
            NamedProtocol::Bsc_20 => 0,
            NamedProtocol::Asc_20 => 1,
            NamedProtocol::Prc_20 => 2,
            NamedProtocol::Zrc_20 => 3,
            NamedProtocol::Erc_20 => 4,
            NamedProtocol::Grc_20 => 5,
            NamedProtocol::Fair_20 => 6,
            NamedProtocol::Oprc_20 => 7,
            NamedProtocol::Osc_20 => 8,
            NamedProtocol::Brc_20 => 9,
            NamedProtocol::Frc_20 => 10,
            NamedProtocol::Nirc_20 => 11,
            NamedProtocol::Zsc_20 => 12,
            NamedProtocol::Vims_20 => 13,
            NamedProtocol::Era_20 => 14,
            NamedProtocol::Bnb_48 => 15,
            NamedProtocol::Gno_20 => 16,
            NamedProtocol::Terc_20 => 17,
            NamedProtocol::Nrc_20 => 18,
            NamedProtocol::Bep_20 => 19,
            NamedProtocol::Bnb_20 => 20,
            NamedProtocol::Cls_20 => 21,
            NamedProtocol::Base_20 => 22,
            NamedProtocol::Erc_cash => 23,
            NamedProtocol::Bnbs_20 => 24,
            NamedProtocol::Ftm_20 => 25,
        }
    }

    /// Returns the string representation of the protocol.
    #[inline]
    pub fn as_str(&self) -> (s: &'static str)
        ensures
            s@ == self.name(),
    {
        match self {
            NamedProtocol::Bsc_20 => "bsc-20",
            NamedProtocol::Asc_20 => "asc-20",
            NamedProtocol::Prc_20 => "prc-20",
            NamedProtocol::Zrc_20 => "zrc-20",
            NamedProtocol::Erc_20 => "erc-20",
            NamedProtocol::Grc_20 => "grc-20",
            NamedProtocol::Fair_20 => "fair-20",
            NamedProtocol::Oprc_20 => "oprc-20",
            NamedProtocol::Osc_20 => "osc-20",
            NamedProtocol::Brc_20 => "brc-20",
            NamedProtocol::Frc_20 => "frc-20",
            NamedProtocol::Nirc_20 => "nirc-20",
            NamedProtocol::Zsc_20 => "zsc-20",
            NamedProtocol::Vims_20 => "vims-20",
            NamedProtocol::Era_20 => "era-20",
            NamedProtocol::Bnb_48 => "bnb-48",
            NamedProtocol::Gno_20 => "gno-20",
            NamedProtocol::Terc_20 => "terc-20",
            NamedProtocol::Nrc_20 => "nrc-20",
            NamedProtocol::Bep_20 => "bep-20",
            NamedProtocol::Bnb_20 => "bnb-20",
            NamedProtocol::Cls_20 => "cls-20",
            NamedProtocol::Base_20 => "base-20",
            NamedProtocol::Erc_cash => "erc-cash",
            NamedProtocol::Bnbs_20 => "bnbs-20",
            NamedProtocol::Ftm_20 => "ftm-20",
        }
    }

    /// Reads a known protocol from its name. Any other text, a name in
    /// another letter case included, is refused.
    pub fn from_str(s: &str) -> (r: Result<NamedProtocol, ParseError>)
        ensures
            match r {
                Ok(p) => NamedProtocol::named(s@) == Some(p),
                Err(e) => NamedProtocol::named(s@) is None && e == ParseError::VariantNotFound,
            },
    {
        if str_eq(s, "bsc-20") {
            Ok(NamedProtocol::Bsc_20)
        } else if str_eq(s, "asc-20") {
            Ok(NamedProtocol::Asc_20)
        } else if str_eq(s, "prc-20") {
            Ok(NamedProtocol::Prc_20)
        } else if str_eq(s, "zrc-20") {
            Ok(NamedProtocol::Zrc_20)
        } else if str_eq(s, "erc-20") {
            Ok(NamedProtocol::Erc_20)
        } else if str_eq(s, "grc-20") {
            Ok(NamedProtocol::Grc_20)
        } else if str_eq(s, "fair-20") {
            Ok(NamedProtocol::Fair_20)
        } else if str_eq(s, "oprc-20") {
            Ok(NamedProtocol::Oprc_20)
        } else if str_eq(s, "osc-20") {
            Ok(NamedProtocol::Osc_20)
        } else if str_eq(s, "brc-20") {
            Ok(NamedProtocol::Brc_20)
        } else if str_eq(s, "frc-20") {
            Ok(NamedProtocol::Frc_20)
        } else if str_eq(s, "nirc-20") {
            Ok(NamedProtocol::Nirc_20)
        } else if str_eq(s, "zsc-20") {
            Ok(NamedProtocol::Zsc_20)
        } else if str_eq(s, "vims-20") {
            Ok(NamedProtocol::Vims_20)
        } else if str_eq(s, "era-20") {
            Ok(NamedProtocol::Era_20)
        } else if str_eq(s, "bnb-48") {
            Ok(NamedProtocol::Bnb_48)
        } else if str_eq(s, "gno-20") {
            Ok(NamedProtocol::Gno_20)
        } else if str_eq(s, "terc-20") {
            Ok(NamedProtocol::Terc_20)
        } else if str_eq(s, "nrc-20") {
            Ok(NamedProtocol::Nrc_20)
        } else if str_eq(s, "bep-20") {
            Ok(NamedProtocol::Bep_20)
        } else if str_eq(s, "bnb-20") {
            Ok(NamedProtocol::Bnb_20)
        } else if str_eq(s, "cls-20") {
            Ok(NamedProtocol::Cls_20)
        } else if str_eq(s, "base-20") {
            Ok(NamedProtocol::Base_20)
        } else if str_eq(s, "erc-cash") {
            Ok(NamedProtocol::Erc_cash)
        } else if str_eq(s, "bnbs-20") {
            Ok(NamedProtocol::Bnbs_20)
        } else if str_eq(s, "ftm-20") {
            Ok(NamedProtocol::Ftm_20)
        } else {
            Err(ParseError::VariantNotFound)
        }
    }

    /// All known protocols, in the order in which they are declared.
    pub fn variants() -> (all: Vec<NamedProtocol>)
        ensures
            all@.len() == NamedProtocol::COUNT,
            forall|p: NamedProtocol| 0 <= p.index() < all@.len() && all@[#[trigger] p.index()] == p,
    {
        vec![
            NamedProtocol::Bsc_20,
            NamedProtocol::Asc_20,
            NamedProtocol::Prc_20,
            NamedProtocol::Zrc_20,
            NamedProtocol::Erc_20,
            NamedProtocol::Grc_20,
            NamedProtocol::Fair_20,
            NamedProtocol::Oprc_20,
            NamedProtocol::Osc_20,
            NamedProtocol::Brc_20,
            NamedProtocol::Frc_20,
            NamedProtocol::Nirc_20,
            NamedProtocol::Zsc_20,
            NamedProtocol::Vims_20,
            NamedProtocol::Era_20,
            NamedProtocol::Bnb_48,
            NamedProtocol::Gno_20,
            NamedProtocol::Terc_20,
            NamedProtocol::Nrc_20,
            NamedProtocol::Bep_20,
            NamedProtocol::Bnb_20,
            NamedProtocol::Cls_20,
            NamedProtocol::Base_20,
            NamedProtocol::Erc_cash,
            NamedProtocol::Bnbs_20,
            NamedProtocol::Ftm_20,
        ]
    }
}

impl std::str::FromStr for NamedProtocol {
    type Err = ParseError;

    /// Reads a known protocol from its name, as [`NamedProtocol::from_str`]
    /// does.
    fn from_str(s: &str) -> (r: Result<NamedProtocol, ParseError>)
        ensures
            match r {
                Ok(p) => NamedProtocol::named(s@) == Some(p),
                Err(e) => NamedProtocol::named(s@) is None && e == ParseError::VariantNotFound,
            },
    {
        NamedProtocol::from_str(s)
    }
}

impl<'a> TryFrom<&'a str> for NamedProtocol {
    type Error = ParseError;

    /// Reads a known protocol from its name, as [`NamedProtocol::from_str`]
    /// does.
    fn try_from(s: &'a str) -> (r: Result<NamedProtocol, ParseError>)
        ensures
            match r {
                Ok(p) => NamedProtocol::named(s@) == Some(p),
                Err(e) => NamedProtocol::named(s@) is None && e == ParseError::VariantNotFound,
            },
    {
        NamedProtocol::from_str(s)
    }
}

impl<'a> TryFromSpecImpl<&'a str> for NamedProtocol {
    open spec fn obeys_try_from_spec() -> bool {
        false
    }

    open spec fn try_from_spec(s: &'a str) -> Result<Self, Self::Error> {
        arbitrary()
    }
}

impl From<NamedProtocol> for &'static str {
    fn from(p: NamedProtocol) -> (s: &'static str)
        ensures
            s@ == p.name(),
    {
        p.as_str()
    }
}

impl FromSpecImpl<NamedProtocol> for &'static str {
    open spec fn obeys_from_spec() -> bool {
        false
    }

    open spec fn from_spec(p: NamedProtocol) -> Self {
        arbitrary()
    }
}

impl AsRef<str> for NamedProtocol {
    #[inline]
    fn as_ref(&self) -> (s: &str)
        ensures
            s@ == self.name(),
    {
        self.as_str()
    }
}

impl ParseError {
    /// A sentence that describes the error.
    pub fn message(&self) -> (s: &'static str)
        ensures
            s@ == "Matching variant not found"@,
    {
        "Matching variant not found"
    }
}

/// A protocol
#[derive(Debug, Clone, PartialEq, Eq)]
pub enum ProtocolKind {
    /// A known protocol
    Named(NamedProtocol),
    /// Any other protocol
    Other(String),
}

/// What a protocol is, apart from how its text is stored: a known protocol,
/// or the identifier of another one.
pub ghost enum ProtocolView {
    /// A known protocol
    Named(NamedProtocol),
    /// Any other protocol, by its identifier
    Other(Seq<char>),
}

impl ProtocolView {
    /// The identifier under which the protocol appears in an inscription.
    pub open spec fn text(self) -> Seq<char> {
        match self {
            ProtocolView::Named(p) => p.name(),
            ProtocolView::Other(id) => id,
        }
    }

    /// The protocol that an identifier stands for: the known protocol of
    /// that name where there is one, else the identifier itself.
    pub open spec fn of(id: Seq<char>) -> ProtocolView {
        match NamedProtocol::named(id) {
            Some(p) => ProtocolView::Named(p),
            None => ProtocolView::Other(id),
        }
    }
}

impl View for ProtocolKind {
    type V = ProtocolView;

    open spec fn view(&self) -> ProtocolView {
        match self {
            ProtocolKind::Named(p) => ProtocolView::Named(*p),
            ProtocolKind::Other(id) => ProtocolView::Other(id@),
        }
    }
}

impl ProtocolKind {
    /// The protocol's identifier.
    pub fn as_str(&self) -> (s: &str)
        ensures
            s@ == self@.text(),
    {
        match self {
            ProtocolKind::Named(p) => p.as_str(),
            ProtocolKind::Other(id) => id.as_str(),
        }
    }

    /// The protocol's identifier as an owned string.
    pub fn to_string(&self) -> (s: String)
        ensures
            s@ == self@.text(),
    {
        self.as_str().to_owned()
    }
}

impl<'a> From<&'a str> for ProtocolKind {
    fn from(id: &'a str) -> (kind: Self)
        ensures
            kind@ == ProtocolView::of(id@),
    {
        match NamedProtocol::from_str(id) {
            Ok(p) => ProtocolKind::Named(p),
            Err(_) => ProtocolKind::Other(id.to_owned()),
        }
    }
}

impl<'a> FromSpecImpl<&'a str> for ProtocolKind {
    open spec fn obeys_from_spec() -> bool {
        false
    }

    open spec fn from_spec(id: &'a str) -> Self {
        arbitrary()
    }
}

impl<'a> From<&'a String> for ProtocolKind {
    fn from(id: &'a String) -> (kind: Self)
        ensures
            kind@ == ProtocolView::of(id@),
    {
        ProtocolKind::from(id.as_str())
    }
}

impl<'a> FromSpecImpl<&'a String> for ProtocolKind {
    open spec fn obeys_from_spec() -> bool {
        false
    }

    open spec fn from_spec(id: &'a String) -> Self {
        arbitrary()
    }
}

impl From<String> for ProtocolKind {
    fn from(id: String) -> (kind: Self)
        ensures
            kind@ == ProtocolView::of(id@),
    {
        match NamedProtocol::from_str(id.as_str()) {
            Ok(p) => ProtocolKind::Named(p),
            Err(_) => ProtocolKind::Other(id),
        }
    }
}

impl FromSpecImpl<String> for ProtocolKind {
    open spec fn obeys_from_spec() -> bool {
        true
    }

    open spec fn from_spec(id: String) -> Self {
        match NamedProtocol::named(id@) {
            Some(p) => ProtocolKind::Named(p),
            None => ProtocolKind::Other(id),
        }
    }
}

impl From<NamedProtocol> for ProtocolKind {
    fn from(kind: NamedProtocol) -> (r: Self) {
        ProtocolKind::Named(kind)
    }
}

impl FromSpecImpl<NamedProtocol> for ProtocolKind {
    open spec fn obeys_from_spec() -> bool {
        true
    }

    open spec fn from_spec(kind: NamedProtocol) -> Self {
        ProtocolKind::Named(kind)
    }
}

/// An inscription protocol
#[derive(Debug, Clone, PartialEq, Eq)]
pub struct Protocol(ProtocolKind);

impl View for Protocol {
    type V = ProtocolView;

    closed spec fn view(&self) -> ProtocolView {
        self.0@
    }
}

impl Protocol {
    /// Whether the protocol is a known one or another, with its identifier.
    pub fn kind(&self) -> (kind: &ProtocolKind)
        ensures
            kind@ == self@,
    {
        &self.0
    }

    /// The protocol's identifier.
    pub fn as_str(&self) -> (s: &str)
        ensures
            s@ == self@.text(),
    {
        self.0.as_str()
    }

    /// The protocol's identifier as an owned string.
    pub fn to_string(&self) -> (s: String)
        ensures
            s@ == self@.text(),
    {
        self.0.to_string()
    }
}

impl<'a> From<&'a str> for Protocol {
    fn from(id: &'a str) -> (p: Self)
        ensures
            p@ == ProtocolView::of(id@),
    {
        Protocol(ProtocolKind::from(id))
    }
}

impl<'a> FromSpecImpl<&'a str> for Protocol {
    open spec fn obeys_from_spec() -> bool {
        false
    }

    open spec fn from_spec(id: &'a str) -> Self {
        arbitrary()
    }
}

impl<'a> From<&'a String> for Protocol {
    fn from(id: &'a String) -> (p: Self)
        ensures
            p@ == ProtocolView::of(id@),
    {
        Protocol(ProtocolKind::from(id))
    }
}

impl<'a> FromSpecImpl<&'a String> for Protocol {
    open spec fn obeys_from_spec() -> bool {
        false
    }

    open spec fn from_spec(id: &'a String) -> Self {
        arbitrary()
    }
}

impl From<String> for Protocol {
    fn from(id: String) -> (p: Self)
        ensures
            p@ == ProtocolView::of(id@),
    {
        Protocol(ProtocolKind::from(id))
    }
}

impl FromSpecImpl<String> for Protocol {
    open spec fn obeys_from_spec() -> bool {
        false
    }

    open spec fn from_spec(id: String) -> Self {
        arbitrary()
    }
}

impl From<ProtocolKind> for Protocol {
    fn from(kind: ProtocolKind) -> (p: Self)
        ensures
            p@ == kind@,
    {
        Protocol(kind)
    }
}

impl FromSpecImpl<ProtocolKind> for Protocol {
    open spec fn obeys_from_spec() -> bool {
        false
    }

    open spec fn from_spec(kind: ProtocolKind) -> Self {
        arbitrary()
    }
}

impl From<NamedProtocol> for Protocol {
    fn from(kind: NamedProtocol) -> (p: Self)
        ensures
            p@ == ProtocolView::Named(kind),
    {
        Protocol(ProtocolKind::Named(kind))
    }
}

impl FromSpecImpl<NamedProtocol> for Protocol {
    open spec fn obeys_from_spec() -> bool {
        false
    }

    open spec fn from_spec(kind: NamedProtocol) -> Self {
        arbitrary()
    }
}

/// What tells the names of the known protocols apart: the length and the
/// characters at four places.
spec fn mark(s: Seq<char>) -> (nat, char, char, char, char) {
    (s.len(), s[0], s[1], s[2], s[4])
}

/// The names of the known protocols are pairwise different texts: each known
/// protocol is read back from its own name.
pub proof fn lemma_name_round_trip(p: NamedProtocol)
    ensures
        NamedProtocol::named(p.name()) == Some(p),
{
    reveal_strlit("bsc-20");
    reveal_strlit("asc-20");
    reveal_strlit("prc-20");
    reveal_strlit("zrc-20");
    reveal_strlit("erc-20");
    reveal_strlit("grc-20");
    reveal_strlit("fair-20");
    reveal_strlit("oprc-20");
    reveal_strlit("osc-20");
    reveal_strlit("brc-20");
    reveal_strlit("frc-20");
    reveal_strlit("nirc-20");
    reveal_strlit("zsc-20");
    reveal_strlit("vims-20");
    reveal_strlit("era-20");
    reveal_strlit("bnb-48");
    reveal_strlit("gno-20");
    reveal_strlit("terc-20");
    reveal_strlit("nrc-20");
    reveal_strlit("bep-20");
    reveal_strlit("bnb-20");
    reveal_strlit("cls-20");
    reveal_strlit("base-20");
    reveal_strlit("erc-cash");
    reveal_strlit("bnbs-20");
    reveal_strlit("ftm-20");
    assert(mark("bsc-20"@) == (6nat, 'b', 's', 'c', '2'));
    assert(mark("asc-20"@) == (6nat, 'a', 's', 'c', '2'));
    assert(mark("prc-20"@) == (6nat, 'p', 'r', 'c', '2'));
    assert(mark("zrc-20"@) == (6nat, 'z', 'r', 'c', '2'));
    assert(mark("erc-20"@) == (6nat, 'e', 'r', 'c', '2'));
    assert(mark("grc-20"@) == (6nat, 'g', 'r', 'c', '2'));
    assert(mark("fair-20"@) == (7nat, 'f', 'a', 'i', '-'));
    assert(mark("oprc-20"@) == (7nat, 'o', 'p', 'r', '-'));
    assert(mark("osc-20"@) == (6nat, 'o', 's', 'c', '2'));
    assert(mark("brc-20"@) == (6nat, 'b', 'r', 'c', '2'));
    assert(mark("frc-20"@) == (6nat, 'f', 'r', 'c', '2'));
    assert(mark("nirc-20"@) == (7nat, 'n', 'i', 'r', '-'));
    assert(mark("zsc-20"@) == (6nat, 'z', 's', 'c', '2'));
    assert(mark("vims-20"@) == (7nat, 'v', 'i', 'm', '-'));
    assert(mark("era-20"@) == (6nat, 'e', 'r', 'a', '2'));
    assert(mark("bnb-48"@) == (6nat, 'b', 'n', 'b', '4'));
    assert(mark("gno-20"@) == (6nat, 'g', 'n', 'o', '2'));
    assert(mark("terc-20"@) == (7nat, 't', 'e', 'r', '-'));
    assert(mark("nrc-20"@) == (6nat, 'n', 'r', 'c', '2'));
    assert(mark("bep-20"@) == (6nat, 'b', 'e', 'p', '2'));
    assert(mark("bnb-20"@) == (6nat, 'b', 'n', 'b', '2'));
    assert(mark("cls-20"@) == (6nat, 'c', 'l', 's', '2'));
    assert(mark("base-20"@) == (7nat, 'b', 'a', 's', '-'));
    assert(mark("erc-cash"@) == (8nat, 'e', 'r', 'c', 'c'));
    assert(mark("bnbs-20"@) == (7nat, 'b', 'n', 'b', '-'));
    assert(mark("ftm-20"@) == (6nat, 'f', 't', 'm', '2'));
}

/// A text is the name of a known protocol exactly if that protocol is read
/// from it.
pub proof fn lemma_named_is_name(s: Seq<char>, p: NamedProtocol)
    ensures
        NamedProtocol::named(s) == Some(p) <==> s == p.name(),
{
    lemma_name_round_trip(p);
}

/// An identifier and the protocol made from it show the same text.
pub proof fn lemma_text_of_identifier(id: Seq<char>)
    ensures
        ProtocolView::of(id).text() == id,
{
}

} // verus!
