use vstd::prelude::*;

verus! {

/// The countries, regions and territories for which Europe Elects collects
/// opinion-poll data.
#[derive(Clone, Copy, Debug, PartialEq, Eq, Structural)]
pub enum Jurisdiction {
    Albania,
    Andorra,
    Armenia,
    Austria,
    BelgiumBrussels,
    BelgiumFlanders,
    BelgiumWallonia,
    Bulgaria,
    Croatia,
    Cyprus,
    Czechia,
    Denmark,
    Estonia,
    Finland,
    France,
    Georgia,
    Germany,
    Gibraltar,
    Greece,
    Hungary,
    Iceland,
    Ireland,
    Italy,
    Kosovo,
    Latvia,
    Lithuania,
    Luxembourg,
    Malta,
    Moldova,
    Montenegro,
    Netherlands,
    NorthMacedonia,
    Norway,
    Poland,
    Portugal,
    Romania,
    Russia,
    Serbia,
    Slovakia,
    Slovenia,
    Spain,
    Sweden,
    Switzerland,
    Turkiye,
    UKGreatBritain,
    UKNorthernIreland,
    UKNorthernIrelandEuropean,
    UKNorthernIrelandNational,
    Ukraine,
}

/// Number of entries of the code table.
pub const JURISDICTION_COUNT: usize = 49;

impl Jurisdiction {
    /// The code under which the jurisdiction is published (case-sensitive).
    pub open spec fn spec_code(self) -> Seq<char> {
        match self {
            Jurisdiction::Albania => seq!['a', 'l'],
            Jurisdiction::Andorra => seq!['a', 'd'],
            Jurisdiction::Armenia => seq!['a', 'm'],
            Jurisdiction::Austria => seq!['a', 't'],
            Jurisdiction::BelgiumBrussels => seq!['b', 'e', '-', 'b', 'r', 'u'],
            Jurisdiction::BelgiumFlanders => seq!['b', 'e', '-', 'v', 'l', 'g'],
            Jurisdiction::BelgiumWallonia => seq!['b', 'e', '-', 'w', 'a', 'l'],
            Jurisdiction::Bulgaria => seq!['b', 'g'],
            Jurisdiction::Croatia => seq!['h', 'r'],
            Jurisdiction::Cyprus => seq!['c', 'y'],
            Jurisdiction::Czechia => seq!['c', 'z'],
            Jurisdiction::Denmark => seq!['d', 'k'],
            Jurisdiction::Estonia => seq!['e', 'e'],
            Jurisdiction::Finland => seq!['f', 'i'],
            Jurisdiction::France => seq!['f', 'r'],
            Jurisdiction::Georgia => seq!['g', 'e'],
            Jurisdiction::Germany => seq!['d', 'e'],
            Jurisdiction::Gibraltar => seq!['g', 'i'],
            Jurisdiction::Greece => seq!['g', 'r'],
            Jurisdiction::Hungary => seq!['h', 'u'],
            Jurisdiction::Iceland => seq!['i', 's'],
            Jurisdiction::Ireland => seq!['i', 'e'],
            Jurisdiction::Italy => seq!['i', 't'],
            Jurisdiction::Kosovo => seq!['x', 'k'],
            Jurisdiction::Latvia => seq!['l', 'v'],
            Jurisdiction::Lithuania => seq!['l', 't'],
            Jurisdiction::Luxembourg => seq!['l', 'u'],
            Jurisdiction::Malta => seq!['m', 't'],
            Jurisdiction::Moldova => seq!['m', 'd'],
            Jurisdiction::Montenegro => seq!['m', 'e'],
            Jurisdiction::Netherlands => seq!['n', 'l'],
            Jurisdiction::NorthMacedonia => seq!['m', 'k'],
            Jurisdiction::Norway => seq!['n', 'o'],
            Jurisdiction::Poland => seq!['p', 'l'],
            Jurisdiction::Portugal => seq!['p', 't'],
            Jurisdiction::Romania => seq!['r', 'o'],
            Jurisdiction::Russia => seq!['r', 'u'],
            Jurisdiction::Serbia => seq!['r', 's'],
            Jurisdiction::Slovakia => seq!['s', 'k'],
            Jurisdiction::Slovenia => seq!['s', 'i'],
            Jurisdiction::Spain => seq!['e', 's'],
            Jurisdiction::Sweden => seq!['s', 'e'],
            Jurisdiction::Switzerland => seq!['c', 'h'],
            Jurisdiction::Turkiye => seq!['t', 'r'],
            Jurisdiction::UKGreatBritain => seq!['g', 'b'],
            Jurisdiction::UKNorthernIreland => seq!['g', 'b', '-', 'n', 'i', 'r'],
            Jurisdiction::UKNorthernIrelandEuropean => seq!['g', 'b', '-', 'n', 'i', 'r', '-', 'E'],
            Jurisdiction::UKNorthernIrelandNational => seq!['g', 'b', '-', 'n', 'i', 'r', '-', 'N'],
            Jurisdiction::Ukraine => seq!['u', 'a'],
        }
    }

    /// Position of the jurisdiction in the code table.
    pub open spec fn spec_index(self) -> nat {
        match self {
            Jurisdiction::Albania => 0,
            Jurisdiction::Andorra => 1,
            Jurisdiction::Armenia => 2,
            Jurisdiction::Austria => 3,
            Jurisdiction::BelgiumBrussels => 4,
            Jurisdiction::BelgiumFlanders => 5,
            Jurisdiction::BelgiumWallonia => 6,
            Jurisdiction::Bulgaria => 7,
            Jurisdiction::Croatia => 8,
            Jurisdiction::Cyprus => 9,
            Jurisdiction::Czechia => 10,
            Jurisdiction::Denmark => 11,
            Jurisdiction::Estonia => 12,
            Jurisdiction::Finland => 13,
            Jurisdiction::France => 14,
            Jurisdiction::Georgia => 15,
            Jurisdiction::Germany => 16,
            Jurisdiction::Gibraltar => 17,
            Jurisdiction::Greece => 18,
            Jurisdiction::Hungary => 19,
            Jurisdiction::Iceland => 20,
            Jurisdiction::Ireland => 21,
            Jurisdiction::Italy => 22,
            Jurisdiction::Kosovo => 23,
            Jurisdiction::Latvia => 24,
            Jurisdiction::Lithuania => 25,
            Jurisdiction::Luxembourg => 26,
            Jurisdiction::Malta => 27,
            Jurisdiction::Moldova => 28,
            Jurisdiction::Montenegro => 29,
            Jurisdiction::Netherlands => 30,
            Jurisdiction::NorthMacedonia => 31,
            Jurisdiction::Norway => 32,
            Jurisdiction::Poland => 33,
            Jurisdiction::Portugal => 34,
            Jurisdiction::Romania => 35,
            Jurisdiction::Russia => 36,
            Jurisdiction::Serbia => 37,
            Jurisdiction::Slovakia => 38,
            Jurisdiction::Slovenia => 39,
            Jurisdiction::Spain => 40,
            Jurisdiction::Sweden => 41,
            Jurisdiction::Switzerland => 42,
            Jurisdiction::Turkiye => 43,
            Jurisdiction::UKGreatBritain => 44,
            Jurisdiction::UKNorthernIreland => 45,
            Jurisdiction::UKNorthernIrelandEuropean => 46,
            Jurisdiction::UKNorthernIrelandNational => 47,
            Jurisdiction::Ukraine => 48,
        }
    }

    pub open spec fn spec_from_index(i: nat) -> Jurisdiction {
        if i == 0 {
            Jurisdiction::Albania
        } else if i == 1 {
            Jurisdiction::Andorra
        } else if i == 2 {
            Jurisdiction::Armenia
        } else if i == 3 {
            Jurisdiction::Austria
        } else if i == 4 {
            Jurisdiction::BelgiumBrussels
        } else if i == 5 {
            Jurisdiction::BelgiumFlanders
        } else if i == 6 {
            Jurisdiction::BelgiumWallonia
        } else if i == 7 {
            Jurisdiction::Bulgaria
        } else if i == 8 {
            Jurisdiction::Croatia
        } else if i == 9 {
            Jurisdiction::Cyprus
        } else if i == 10 {
            Jurisdiction::Czechia
        } else if i == 11 {
            Jurisdiction::Denmark
        } else if i == 12 {
            Jurisdiction::Estonia
        } else if i == 13 {
            Jurisdiction::Finland
        } else if i == 14 {
            Jurisdiction::France
        } else if i == 15 {
            Jurisdiction::Georgia
        } else if i == 16 {
            Jurisdiction::Germany
        } else if i == 17 {
            Jurisdiction::Gibraltar
        } else if i == 18 {
            Jurisdiction::Greece
        } else if i == 19 {
            Jurisdiction::Hungary
        } else if i == 20 {
            Jurisdiction::Iceland
        } else if i == 21 {
            Jurisdiction::Ireland
        } else if i == 22 {
            Jurisdiction::Italy
        } else if i == 23 {
            Jurisdiction::Kosovo
        } else if i == 24 {
            Jurisdiction::Latvia
        } else if i == 25 {
            Jurisdiction::Lithuania
        } else if i == 26 {
            Jurisdiction::Luxembourg
        } else if i == 27 {
            Jurisdiction::Malta
        } else if i == 28 {
            Jurisdiction::Moldova
        } else if i == 29 {
            Jurisdiction::Montenegro
        } else if i == 30 {
            Jurisdiction::Netherlands
        } else if i == 31 {
            Jurisdiction::NorthMacedonia
        } else if i == 32 {
            Jurisdiction::Norway
        } else if i == 33 {
            Jurisdiction::Poland
        } else if i == 34 {
            Jurisdiction::Portugal
        } else if i == 35 {
            Jurisdiction::Romania
        } else if i == 36 {
            Jurisdiction::Russia
        } else if i == 37 {
            Jurisdiction::Serbia
        } else if i == 38 {
            Jurisdiction::Slovakia
        } else if i == 39 {
            Jurisdiction::Slovenia
        } else if i == 40 {
            Jurisdiction::Spain
        } else if i == 41 {
            Jurisdiction::Sweden
        } else if i == 42 {
            Jurisdiction::Switzerland
        } else if i == 43 {
            Jurisdiction::Turkiye
        } else if i == 44 {
            Jurisdiction::UKGreatBritain
        } else if i == 45 {
            Jurisdiction::UKNorthernIreland
        } else if i == 46 {
            Jurisdiction::UKNorthernIrelandEuropean
        } else if i == 47 {
            Jurisdiction::UKNorthernIrelandNational
        } else {
            Jurisdiction::Ukraine
        }
    }

    /// The jurisdiction at position `i` of the code table.
    pub fn from_index(i: usize) -> (r: Jurisdiction)
        requires
            i < JURISDICTION_COUNT,
        ensures
            r == Jurisdiction::spec_from_index(i as nat),
    {
        if i == 0 {
            Jurisdiction::Albania
        } else if i == 1 {
            Jurisdiction::Andorra
        } else if i == 2 {
            Jurisdiction::Armenia
        } else if i == 3 {
            Jurisdiction::Austria
        } else if i == 4 {
            Jurisdiction::BelgiumBrussels
        } else if i == 5 {
            Jurisdiction::BelgiumFlanders
        } else if i == 6 {
            Jurisdiction::BelgiumWallonia
        } else if i == 7 {
            Jurisdiction::Bulgaria
        } else if i == 8 {
            Jurisdiction::Croatia
        } else if i == 9 {
            Jurisdiction::Cyprus
        } else if i == 10 {
            Jurisdiction::Czechia
        } else if i == 11 {
            Jurisdiction::Denmark
        } else if i == 12 {
            Jurisdiction::Estonia
        } else if i == 13 {
            Jurisdiction::Finland
        } else if i == 14 {
            Jurisdiction::France
        } else if i == 15 {
            Jurisdiction::Georgia
        } else if i == 16 {
            Jurisdiction::Germany
        } else if i == 17 {
            Jurisdiction::Gibraltar
        } else if i == 18 {
            Jurisdiction::Greece
        } else if i == 19 {
            Jurisdiction::Hungary
        } else if i == 20 {
            Jurisdiction::Iceland
        } else if i == 21 {
            Jurisdiction::Ireland
        } else if i == 22 {
            Jurisdiction::Italy
        } else if i == 23 {
            Jurisdiction::Kosovo
        } else if i == 24 {
            Jurisdiction::Latvia
        } else if i == 25 {
            Jurisdiction::Lithuania
        } else if i == 26 {
            Jurisdiction::Luxembourg
        } else if i == 27 {
            Jurisdiction::Malta
        } else if i == 28 {
            Jurisdiction::Moldova
        } else if i == 29 {
            Jurisdiction::Montenegro
        } else if i == 30 {
            Jurisdiction::Netherlands
        } else if i == 31 {
            Jurisdiction::NorthMacedonia
        } else if i == 32 {
            Jurisdiction::Norway
        } else if i == 33 {
            Jurisdiction::Poland
        } else if i == 34 {
            Jurisdiction::Portugal
        } else if i == 35 {
            Jurisdiction::Romania
        } else if i == 36 {
            Jurisdiction::Russia
        } else if i == 37 {
            Jurisdiction::Serbia
        } else if i == 38 {
            Jurisdiction::Slovakia
        } else if i == 39 {
            Jurisdiction::Slovenia
        } else if i == 40 {
            Jurisdiction::Spain
        } else if i == 41 {
            Jurisdiction::Sweden
        } else if i == 42 {
            Jurisdiction::Switzerland
        } else if i == 43 {
            Jurisdiction::Turkiye
        } else if i == 44 {
            Jurisdiction::UKGreatBritain
        } else if i == 45 {
            Jurisdiction::UKNorthernIreland
        } else if i == 46 {
            Jurisdiction::UKNorthernIrelandEuropean
        } else if i == 47 {
            Jurisdiction::UKNorthernIrelandNational
        } else {
            Jurisdiction::Ukraine
        }
    }

    /// The code under which the jurisdiction is published.
    pub fn code(&self) -> (r: &'static str)
        ensures
            r@ == self.spec_code(),
    {
        match self {
            Jurisdiction::Albania => {
                proof {
                    reveal_strlit("al");
                    assert("al"@ =~= seq!['a', 'l']);
                }
                "al"
            },
            Jurisdiction::Andorra => {
                proof {
                    reveal_strlit("ad");
                    assert("ad"@ =~= seq!['a', 'd']);
                }
                "ad"
            },
            Jurisdiction::Armenia => {
                proof {
                    reveal_strlit("am");
                    assert("am"@ =~= seq!['a', 'm']);
                }
                "am"
            },
            Jurisdiction::Austria => {
                proof {
                    reveal_strlit("at");
                    assert("at"@ =~= seq!['a', 't']);
                }
                "at"
            },
            Jurisdiction::BelgiumBrussels => {
                proof {
                    reveal_strlit("be-bru");
                    assert("be-bru"@ =~= seq!['b', 'e', '-', 'b', 'r', 'u']);
                }
                "be-bru"
            },
            Jurisdiction::BelgiumFlanders => {
                proof {
                    reveal_strlit("be-vlg");
                    assert("be-vlg"@ =~= seq!['b', 'e', '-', 'v', 'l', 'g']);
                }
                "be-vlg"
            },
            Jurisdiction::BelgiumWallonia => {
                proof {
                    reveal_strlit("be-wal");
                    assert("be-wal"@ =~= seq!['b', 'e', '-', 'w', 'a', 'l']);
                }
                "be-wal"
            },
            Jurisdiction::Bulgaria => {
                proof {
                    reveal_strlit("bg");
                    assert("bg"@ =~= seq!['b', 'g']);
                }
                "bg"
            },
            Jurisdiction::Croatia => {
                proof {
                    reveal_strlit("hr");
                    assert("hr"@ =~= seq!['h', 'r']);
                }
                "hr"
            },
            Jurisdiction::Cyprus => {
                proof {
                    reveal_strlit("cy");
                    assert("cy"@ =~= seq!['c', 'y']);
                }
                "cy"
            },
            Jurisdiction::Czechia => {
                proof {
                    reveal_strlit("cz");
                    assert("cz"@ =~= seq!['c', 'z']);
                }
                "cz"
            },
            Jurisdiction::Denmark => {
                proof {
                    reveal_strlit("dk");
                    assert("dk"@ =~= seq!['d', 'k']);
                }
                "dk"
            },
            Jurisdiction::Estonia => {
                proof {
                    reveal_strlit("ee");
                    assert("ee"@ =~= seq!['e', 'e']);
                }
                "ee"
            },
            Jurisdiction::Finland => {
                proof {
                    reveal_strlit("fi");
                    assert("fi"@ =~= seq!['f', 'i']);
                }
                "fi"
            },
            Jurisdiction::France => {
                proof {
                    reveal_strlit("fr");
                    assert("fr"@ =~= seq!['f', 'r']);
                }
                "fr"
            },
            Jurisdiction::Georgia => {
                proof {
                    reveal_strlit("ge");
                    assert("ge"@ =~= seq!['g', 'e']);
                }
                "ge"
            },
            Jurisdiction::Germany => {
                proof {
                    reveal_strlit("de");
                    assert("de"@ =~= seq!['d', 'e']);
                }
                "de"
            },
            Jurisdiction::Gibraltar => {
                proof {
                    reveal_strlit("gi");
                    assert("gi"@ =~= seq!['g', 'i']);
                }
                "gi"
            },
            Jurisdiction::Greece => {
                proof {
                    reveal_strlit("gr");
                    assert("gr"@ =~= seq!['g', 'r']);
                }
                "gr"
            },
            Jurisdiction::Hungary => {
                proof {
                    reveal_strlit("hu");
                    assert("hu"@ =~= seq!['h', 'u']);
                }
                "hu"
            },
            Jurisdiction::Iceland => {
                proof {
                    reveal_strlit("is");
                    assert("is"@ =~= seq!['i', 's']);
                }
                "is"
            },
            Jurisdiction::Ireland => {
                proof {
                    reveal_strlit("ie");
                    assert("ie"@ =~= seq!['i', 'e']);
                }
                "ie"
            },
            Jurisdiction::Italy => {
                proof {
                    reveal_strlit("it");
                    assert("it"@ =~= seq!['i', 't']);
                }
                "it"
            },
            Jurisdiction::Kosovo => {
                proof {
                    reveal_strlit("xk");
                    assert("xk"@ =~= seq!['x', 'k']);
                }
                "xk"
            },
            Jurisdiction::Latvia => {
                proof {
                    reveal_strlit("lv");
                    assert("lv"@ =~= seq!['l', 'v']);
                }
                "lv"
            },
            Jurisdiction::Lithuania => {
                proof {
                    reveal_strlit("lt");
                    assert("lt"@ =~= seq!['l', 't']);
                }
                "lt"
            },
            Jurisdiction::Luxembourg => {
                proof {
                    reveal_strlit("lu");
                    assert("lu"@ =~= seq!['l', 'u']);
                }
                "lu"
            },
            Jurisdiction::Malta => {
                proof {
                    reveal_strlit("mt");
                    assert("mt"@ =~= seq!['m', 't']);
                }
                "mt"
            },
            Jurisdiction::Moldova => {
                proof {
                    reveal_strlit("md");
                    assert("md"@ =~= seq!['m', 'd']);
                }
                "md"
            },
            Jurisdiction::Montenegro => {
                proof {
                    reveal_strlit("me");
                    assert("me"@ =~= seq!['m', 'e']);
                }
                "me"
            },
            Jurisdiction::Netherlands => {
                proof {
                    reveal_strlit("nl");
                    assert("nl"@ =~= seq!['n', 'l']);
                }
                "nl"
            },
            Jurisdiction::NorthMacedonia => {
                proof {
                    reveal_strlit("mk");
                    assert("mk"@ =~= seq!['m', 'k']);
                }
                "mk"
            },
            Jurisdiction::Norway => {
                proof {
                    reveal_strlit("no");
                    assert("no"@ =~= seq!['n', 'o']);
                }
                "no"
            },
            Jurisdiction::Poland => {
                proof {
                    reveal_strlit("pl");
                    assert("pl"@ =~= seq!['p', 'l']);
                }
                "pl"
            },
            Jurisdiction::Portugal => {
                proof {
                    reveal_strlit("pt");
                    assert("pt"@ =~= seq!['p', 't']);
                }
                "pt"
            },
            Jurisdiction::Romania => {
                proof {
                    reveal_strlit("ro");
                    assert("ro"@ =~= seq!['r', 'o']);
                }
                "ro"
            },
            Jurisdiction::Russia => {
                proof {
                    reveal_strlit("ru");
                    assert("ru"@ =~= seq!['r', 'u']);
                }
                "ru"
            },
            Jurisdiction::Serbia => {
                proof {
                    reveal_strlit("rs");
                    assert("rs"@ =~= seq!['r', 's']);
                }
                "rs"
            },
            Jurisdiction::Slovakia => {
                proof {
                    reveal_strlit("sk");
                    assert("sk"@ =~= seq!['s', 'k']);
                }
                "sk"
            },
            Jurisdiction::Slovenia => {
                proof {
                    reveal_strlit("si");
                    assert("si"@ =~= seq!['s', 'i']);
                }
                "si"
            },
            Jurisdiction::Spain => {
                proof {
                    reveal_strlit("es");
                    assert("es"@ =~= seq!['e', 's']);
                }
                "es"
            },
            Jurisdiction::Sweden => {
                proof {
                    reveal_strlit("se");
                    assert("se"@ =~= seq!['s', 'e']);
                }
                "se"
            },
            Jurisdiction::Switzerland => {
                proof {
                    reveal_strlit("ch");
                    assert("ch"@ =~= seq!['c', 'h']);
                }
                "ch"
            },
            Jurisdiction::Turkiye => {
                proof {
                    reveal_strlit("tr");
                    assert("tr"@ =~= seq!['t', 'r']);
                }
                "tr"
            },
            Jurisdiction::UKGreatBritain => {
                proof {
                    reveal_strlit("gb");
                    assert("gb"@ =~= seq!['g', 'b']);
                }
                "gb"
            },
            Jurisdiction::UKNorthernIreland => {
                proof {
                    reveal_strlit("gb-nir");
                    assert("gb-nir"@ =~= seq!['g', 'b', '-', 'n', 'i', 'r']);
                }
                "gb-nir"
            },
            Jurisdiction::UKNorthernIrelandEuropean => {
                proof {
                    reveal_strlit("gb-nir-E");
                    assert("gb-nir-E"@ =~= seq!['g', 'b', '-', 'n', 'i', 'r', '-', 'E']);
                }
                "gb-nir-E"
            },
            Jurisdiction::UKNorthernIrelandNational => {
                proof {
                    reveal_strlit("gb-nir-N");
                    assert("gb-nir-N"@ =~= seq!['g', 'b', '-', 'n', 'i', 'r', '-', 'N']);
                }
                "gb-nir-N"
            },
            Jurisdiction::Ukraine => {
                proof {
                    reveal_strlit("ua");
                    assert("ua"@ =~= seq!['u', 'a']);
                }
                "ua"
            },
        }
    }

    /// Resolves a code of the table; the match is exact and case-sensitive.
    pub open spec fn spec_lookup(s: Seq<char>) -> Option<Jurisdiction> {
        if s.len() == 2 {
            match (s[0], s[1]) {
                ('a', 'l') => Some(Jurisdiction::Albania),
                ('a', 'd') => Some(Jurisdiction::Andorra),
                ('a', 'm') => Some(Jurisdiction::Armenia),
                ('a', 't') => Some(Jurisdiction::Austria),
                ('b', 'g') => Some(Jurisdiction::Bulgaria),
                ('h', 'r') => Some(Jurisdiction::Croatia),
                ('c', 'y') => Some(Jurisdiction::Cyprus),
                ('c', 'z') => Some(Jurisdiction::Czechia),
                ('d', 'k') => Some(Jurisdiction::Denmark),
                ('e', 'e') => Some(Jurisdiction::Estonia),
                ('f', 'i') => Some(Jurisdiction::Finland),
                ('f', 'r') => Some(Jurisdiction::France),
                ('g', 'e') => Some(Jurisdiction::Georgia),
                ('d', 'e') => Some(Jurisdiction::Germany),
                ('g', 'i') => Some(Jurisdiction::Gibraltar),
                ('g', 'r') => Some(Jurisdiction::Greece),
                ('h', 'u') => Some(Jurisdiction::Hungary),
                ('i', 's') => Some(Jurisdiction::Iceland),
                ('i', 'e') => Some(Jurisdiction::Ireland),
                ('i', 't') => Some(Jurisdiction::Italy),
                ('x', 'k') => Some(Jurisdiction::Kosovo),
                ('l', 'v') => Some(Jurisdiction::Latvia),
                ('l', 't') => Some(Jurisdiction::Lithuania),
                ('l', 'u') => Some(Jurisdiction::Luxembourg),
                ('m', 't') => Some(Jurisdiction::Malta),
                ('m', 'd') => Some(Jurisdiction::Moldova),
                ('m', 'e') => Some(Jurisdiction::Montenegro),
                ('n', 'l') => Some(Jurisdiction::Netherlands),
                ('m', 'k') => Some(Jurisdiction::NorthMacedonia),
                ('n', 'o') => Some(Jurisdiction::Norway),
                ('p', 'l') => Some(Jurisdiction::Poland),
                ('p', 't') => Some(Jurisdiction::Portugal),
                ('r', 'o') => Some(Jurisdiction::Romania),
                ('r', 'u') => Some(Jurisdiction::Russia),
                ('r', 's') => Some(Jurisdiction::Serbia),
                ('s', 'k') => Some(Jurisdiction::Slovakia),
                ('s', 'i') => Some(Jurisdiction::Slovenia),
                ('e', 's') => Some(Jurisdiction::Spain),
                ('s', 'e') => Some(Jurisdiction::Sweden),
                ('c', 'h') => Some(Jurisdiction::Switzerland),
                ('t', 'r') => Some(Jurisdiction::Turkiye),
                ('g', 'b') => Some(Jurisdiction::UKGreatBritain),
                ('u', 'a') => Some(Jurisdiction::Ukraine),
                _ => None,
            }
        } else if s.len() == 6 {
            match (s[0], s[1], s[2], s[3], s[4], s[5]) {
                ('b', 'e', '-', 'b', 'r', 'u') => Some(Jurisdiction::BelgiumBrussels),
                ('b', 'e', '-', 'v', 'l', 'g') => Some(Jurisdiction::BelgiumFlanders),
                ('b', 'e', '-', 'w', 'a', 'l') => Some(Jurisdiction::BelgiumWallonia),
                ('g', 'b', '-', 'n', 'i', 'r') => Some(Jurisdiction::UKNorthernIreland),
                _ => None,
            }
        } else if s.len() == 8 {
            match (s[0], s[1], s[2], s[3], s[4], s[5], s[6], s[7]) {
                ('g', 'b', '-', 'n', 'i', 'r', '-', 'E') => Some(Jurisdiction::UKNorthernIrelandEuropean),
                ('g', 'b', '-', 'n', 'i', 'r', '-', 'N') => Some(Jurisdiction::UKNorthernIrelandNational),
                _ => None,
            }
        } else {
            None
        }
    }

    /// Looks a code up in the table; the match is exact and case-sensitive,
    /// so `gb-nir-E` and `gb-nir-N` are different codes.
    pub fn from_code(s: &str) -> (r: Option<Jurisdiction>)
        ensures
            r == Jurisdiction::spec_lookup(s@),
    {
        let n = s.unicode_len();
        if n == 2 {
            let c0 = s.get_char(0);
            let c1 = s.get_char(1);
            match (c0, c1) {
                ('a', 'l') => Some(Jurisdiction::Albania),
                ('a', 'd') => Some(Jurisdiction::Andorra),
                ('a', 'm') => Some(Jurisdiction::Armenia),
                ('a', 't') => Some(Jurisdiction::Austria),
                ('b', 'g') => Some(Jurisdiction::Bulgaria),
                ('h', 'r') => Some(Jurisdiction::Croatia),
                ('c', 'y') => Some(Jurisdiction::Cyprus),
                ('c', 'z') => Some(Jurisdiction::Czechia),
                ('d', 'k') => Some(Jurisdiction::Denmark),
                ('e', 'e') => Some(Jurisdiction::Estonia),
                ('f', 'i') => Some(Jurisdiction::Finland),
                ('f', 'r') => Some(Jurisdiction::France),
                ('g', 'e') => Some(Jurisdiction::Georgia),
                ('d', 'e') => Some(Jurisdiction::Germany),
                ('g', 'i') => Some(Jurisdiction::Gibraltar),
                ('g', 'r') => Some(Jurisdiction::Greece),
                ('h', 'u') => Some(Jurisdiction::Hungary),
                ('i', 's') => Some(Jurisdiction::Iceland),
                ('i', 'e') => Some(Jurisdiction::Ireland),
                ('i', 't') => Some(Jurisdiction::Italy),
                ('x', 'k') => Some(Jurisdiction::Kosovo),
                ('l', 'v') => Some(Jurisdiction::Latvia),
                ('l', 't') => Some(Jurisdiction::Lithuania),
                ('l', 'u') => Some(Jurisdiction::Luxembourg),
                ('m', 't') => Some(Jurisdiction::Malta),
                ('m', 'd') => Some(Jurisdiction::Moldova),
                ('m', 'e') => Some(Jurisdiction::Montenegro),
                ('n', 'l') => Some(Jurisdiction::Netherlands),
                ('m', 'k') => Some(Jurisdiction::NorthMacedonia),
                ('n', 'o') => Some(Jurisdiction::Norway),
                ('p', 'l') => Some(Jurisdiction::Poland),
                ('p', 't') => Some(Jurisdiction::Portugal),
                ('r', 'o') => Some(Jurisdiction::Romania),
                ('r', 'u') => Some(Jurisdiction::Russia),
                ('r', 's') => Some(Jurisdiction::Serbia),
                ('s', 'k') => Some(Jurisdiction::Slovakia),
                ('s', 'i') => Some(Jurisdiction::Slovenia),
                ('e', 's') => Some(Jurisdiction::Spain),
                ('s', 'e') => Some(Jurisdiction::Sweden),
                ('c', 'h') => Some(Jurisdiction::Switzerland),
                ('t', 'r') => Some(Jurisdiction::Turkiye),
                ('g', 'b') => Some(Jurisdiction::UKGreatBritain),
                ('u', 'a') => Some(Jurisdiction::Ukraine),
                _ => None,
            }
        } else if n == 6 {
            let c0 = s.get_char(0);
            let c1 = s.get_char(1);
            let c2 = s.get_char(2);
            let c3 = s.get_char(3);
            let c4 = s.get_char(4);
            let c5 = s.get_char(5);
            match (c0, c1, c2, c3, c4, c5) {
                ('b', 'e', '-', 'b', 'r', 'u') => Some(Jurisdiction::BelgiumBrussels),
                ('b', 'e', '-', 'v', 'l', 'g') => Some(Jurisdiction::BelgiumFlanders),
                ('b', 'e', '-', 'w', 'a', 'l') => Some(Jurisdiction::BelgiumWallonia),
                ('g', 'b', '-', 'n', 'i', 'r') => Some(Jurisdiction::UKNorthernIreland),
                _ => None,
            }
        } else if n == 8 {
            let c0 = s.get_char(0);
            let c1 = s.get_char(1);
            let c2 = s.get_char(2);
            let c3 = s.get_char(3);
            let c4 = s.get_char(4);
            let c5 = s.get_char(5);
            let c6 = s.get_char(6);
            let c7 = s.get_char(7);
            match (c0, c1, c2, c3, c4, c5, c6, c7) {
                ('g', 'b', '-', 'n', 'i', 'r', '-', 'E') => Some(Jurisdiction::UKNorthernIrelandEuropean),
                ('g', 'b', '-', 'n', 'i', 'r', '-', 'N') => Some(Jurisdiction::UKNorthernIrelandNational),
                _ => None,
            }
        } else {
            None
        }
    }
}

/// Every code of the table resolves, and to the jurisdiction that it is
/// the code of.
pub proof fn lemma_code_resolves(j: Jurisdiction)
    ensures
        Jurisdiction::spec_lookup(j.spec_code()) == Some(j),
{
}

/// A code resolves only to the jurisdiction whose code it is: no two
/// jurisdictions share a code, and no other text resolves.
pub proof fn lemma_lookup_exact(s: Seq<char>, j: Jurisdiction)
    requires
        Jurisdiction::spec_lookup(s) == Some(j),
    ensures
        s == j.spec_code(),
{
    assert(s =~= j.spec_code());
}

/// The code table: each jurisdiction with its code, in table order.
pub fn init_jurisdiction() -> (r: Vec<(String, Jurisdiction)>)
    ensures
        r@.len() == JURISDICTION_COUNT,
        forall|i: int| 0 <= i < r@.len() ==> (#[trigger] r@[i]).0@ == r@[i].1.spec_code(),
        forall|j: Jurisdiction| (#[trigger] r@[j.spec_index() as int]).1 == j,
{
    let mut table: Vec<(String, Jurisdiction)> = Vec::new();
    let mut i: usize = 0;
    while i < JURISDICTION_COUNT
        invariant
            i <= JURISDICTION_COUNT,
            table@.len() == i,
            forall|k: int| 0 <= k < i ==> (#[trigger] table@[k]).0@ == table@[k].1.spec_code(),
            forall|k: int| 0 <= k < i ==> (#[trigger] table@[k]).1 == Jurisdiction::spec_from_index(k as nat),
        decreases JURISDICTION_COUNT - i,
    {
        let j = Jurisdiction::from_index(i);
        table.push((String::from_str(j.code()), j));
        i = i + 1;
    }
    assert forall|j: Jurisdiction| Jurisdiction::spec_from_index(j.spec_index()) == j by {}
    table
}

} // verus!
