use vstd::prelude::*;
use vstd::string::StringSliceAdditionalSpecFns;
use vstd::utf8::encode_utf8_decode_utf8;

verus! {

/// The causes of death that the game's damage model knows.
#[derive(Debug, Copy, Clone, PartialEq, Eq, Structural)]
pub enum DeathCauses {
    Unknown,
    Shotgun,
    Gauntlet,
    MachineGun,
    Grenade,
    GrenadeSplash,
    Rocket,
    RocketSplash,
    Plasma,
    PlasmaSplash,
    Railgun,
    Lightning,
    Bfg,
    BfgSplash,
    Water,
    Slime,
    Lava,
    Crush,
    Telefrag,
    Falling,
    Suicide,
    TargetLaser,
    TriggerHurt,
    Nail,
    Chaingun,
    ProximityMine,
    Kamikaze,
    Juiced,
    Grapple,
}

/// How many causes of death there are.
pub const CAUSE_COUNT: usize = 29;

/// Whether two texts hold the same characters. The texts are compared byte
/// by byte in their UTF-8 form, which tells every two texts apart.
pub(crate) fn same_text(a: &str, b: &str) -> (same: bool)
    ensures
        same == (a@ == b@),
{
    let left = a.as_bytes();
    let right = b.as_bytes();
    proof {
        encode_utf8_decode_utf8(a@);
        encode_utf8_decode_utf8(b@);
    }
    if left.len() != right.len() {
        return false;
    }
    let mut i: usize = 0;
    while i < left.len()
        invariant
            left@ == a.spec_bytes(),
            right@ == b.spec_bytes(),
            left@.len() == right@.len(),
            i <= left@.len(),
            forall|k: int| 0 <= k < i ==> left@[k] == right@[k],
        decreases left@.len() - i,
    {
        if left[i] != right[i] {
            return false;
        }
        i += 1;
    }
    assert(left@ =~= right@);
    true
}

impl DeathCauses {
    /// The token that names this cause in a log line.
    pub open spec fn token(self) -> Seq<char> {
        match self {
            DeathCauses::Unknown => "MOD_UNKNOWN"@,
            DeathCauses::Shotgun => "MOD_SHOTGUN"@,
            DeathCauses::Gauntlet => "MOD_GAUNTLET"@,
            DeathCauses::MachineGun => "MOD_MACHINEGUN"@,
            DeathCauses::Grenade => "MOD_GRENADE"@,
            DeathCauses::GrenadeSplash => "MOD_GRENADE_SPLASH"@,
            DeathCauses::Rocket => "MOD_ROCKET"@,
            DeathCauses::RocketSplash => "MOD_ROCKET_SPLASH"@,
            DeathCauses::Plasma => "MOD_PLASMA"@,
            DeathCauses::PlasmaSplash => "MOD_PLASMA_SPLASH"@,
            DeathCauses::Railgun => "MOD_RAILGUN"@,
            DeathCauses::Lightning => "MOD_LIGHTNING"@,
            DeathCauses::Bfg => "MOD_BFG"@,
            DeathCauses::BfgSplash => "MOD_BFG_SPLASH"@,
            DeathCauses::Water => "MOD_WATER"@,
            DeathCauses::Slime => "MOD_SLIME"@,
            DeathCauses::Lava => "MOD_LAVA"@,
            DeathCauses::Crush => "MOD_CRUSH"@,
            DeathCauses::Telefrag => "MOD_TELEFRAG"@,
            DeathCauses::Falling => "MOD_FALLING"@,
            DeathCauses::Suicide => "MOD_SUICIDE"@,
            DeathCauses::TargetLaser => "MOD_TARGET_LASER"@,
            DeathCauses::TriggerHurt => "MOD_TRIGGER_HURT"@,
            DeathCauses::Nail => "MOD_NAIL"@,
            DeathCauses::Chaingun => "MOD_CHAINGUN"@,
            DeathCauses::ProximityMine => "MOD_PROXIMITY_MINE"@,
            DeathCauses::Kamikaze => "MOD_KAMIKAZE"@,
            DeathCauses::Juiced => "MOD_JUICED"@,
            DeathCauses::Grapple => "MOD_GRAPPLE"@,
        }
    }

    /// The cause that a token names, if it names one. Tokens are compared as
    /// they stand: no trimming, no change of case.
    pub open spec fn of_token(token: Seq<char>) -> Option<DeathCauses> {
        if exists|cause: DeathCauses| cause.token() == token {
            Some(choose|cause: DeathCauses| cause.token() == token)
        } else {
            None
        }
    }

    /// The place of this cause in the fixed order in which causes are listed.
    pub open spec fn spec_index(self) -> int {
        match self {
            DeathCauses::Unknown => 0,
            DeathCauses::Shotgun => 1,
            DeathCauses::Gauntlet => 2,
            DeathCauses::MachineGun => 3,
            DeathCauses::Grenade => 4,
            DeathCauses::GrenadeSplash => 5,
            DeathCauses::Rocket => 6,
            DeathCauses::RocketSplash => 7,
            DeathCauses::Plasma => 8,
            DeathCauses::PlasmaSplash => 9,
            DeathCauses::Railgun => 10,
            DeathCauses::Lightning => 11,
            DeathCauses::Bfg => 12,
            DeathCauses::BfgSplash => 13,
            DeathCauses::Water => 14,
            DeathCauses::Slime => 15,
            DeathCauses::Lava => 16,
            DeathCauses::Crush => 17,
            DeathCauses::Telefrag => 18,
            DeathCauses::Falling => 19,
            DeathCauses::Suicide => 20,
            DeathCauses::TargetLaser => 21,
            DeathCauses::TriggerHurt => 22,
            DeathCauses::Nail => 23,
            DeathCauses::Chaingun => 24,
            DeathCauses::ProximityMine => 25,
            DeathCauses::Kamikaze => 26,
            DeathCauses::Juiced => 27,
            DeathCauses::Grapple => 28,
        }
    }

    /// The length of a token with its first three characters after the common
    /// prefix: enough to tell any two tokens apart.
    spec fn fingerprint(token: Seq<char>) -> (nat, char, char, char) {
        (token.len(), token[4], token[5], token[6])
    }

    proof fn lemma_fingerprint(self)
        ensures
            Self::fingerprint(self.token()) == match self {
                DeathCauses::Unknown => (11nat, 'U', 'N', 'K'),
                DeathCauses::Shotgun => (11nat, 'S', 'H', 'O'),
                DeathCauses::Gauntlet => (12nat, 'G', 'A', 'U'),
                DeathCauses::MachineGun => (14nat, 'M', 'A', 'C'),
                DeathCauses::Grenade => (11nat, 'G', 'R', 'E'),
                DeathCauses::GrenadeSplash => (18nat, 'G', 'R', 'E'),
                DeathCauses::Rocket => (10nat, 'R', 'O', 'C'),
                DeathCauses::RocketSplash => (17nat, 'R', 'O', 'C'),
                DeathCauses::Plasma => (10nat, 'P', 'L', 'A'),
                DeathCauses::PlasmaSplash => (17nat, 'P', 'L', 'A'),
                DeathCauses::Railgun => (11nat, 'R', 'A', 'I'),
                DeathCauses::Lightning => (13nat, 'L', 'I', 'G'),
                DeathCauses::Bfg => (7nat, 'B', 'F', 'G'),
                DeathCauses::BfgSplash => (14nat, 'B', 'F', 'G'),
                DeathCauses::Water => (9nat, 'W', 'A', 'T'),
                DeathCauses::Slime => (9nat, 'S', 'L', 'I'),
                DeathCauses::Lava => (8nat, 'L', 'A', 'V'),
                DeathCauses::Crush => (9nat, 'C', 'R', 'U'),
                DeathCauses::Telefrag => (12nat, 'T', 'E', 'L'),
                DeathCauses::Falling => (11nat, 'F', 'A', 'L'),
                DeathCauses::Suicide => (11nat, 'S', 'U', 'I'),
                DeathCauses::TargetLaser => (16nat, 'T', 'A', 'R'),
                DeathCauses::TriggerHurt => (16nat, 'T', 'R', 'I'),
                DeathCauses::Nail => (8nat, 'N', 'A', 'I'),
                DeathCauses::Chaingun => (12nat, 'C', 'H', 'A'),
                DeathCauses::ProximityMine => (18nat, 'P', 'R', 'O'),
                DeathCauses::Kamikaze => (12nat, 'K', 'A', 'M'),
                DeathCauses::Juiced => (10nat, 'J', 'U', 'I'),
                DeathCauses::Grapple => (11nat, 'G', 'R', 'A'),
            },
    {
        match self {
            DeathCauses::Unknown => reveal_strlit("MOD_UNKNOWN"),
            DeathCauses::Shotgun => reveal_strlit("MOD_SHOTGUN"),
            DeathCauses::Gauntlet => reveal_strlit("MOD_GAUNTLET"),
            DeathCauses::MachineGun => reveal_strlit("MOD_MACHINEGUN"),
            DeathCauses::Grenade => reveal_strlit("MOD_GRENADE"),
            DeathCauses::GrenadeSplash => reveal_strlit("MOD_GRENADE_SPLASH"),
            DeathCauses::Rocket => reveal_strlit("MOD_ROCKET"),
            DeathCauses::RocketSplash => reveal_strlit("MOD_ROCKET_SPLASH"),
            DeathCauses::Plasma => reveal_strlit("MOD_PLASMA"),
            DeathCauses::PlasmaSplash => reveal_strlit("MOD_PLASMA_SPLASH"),
            DeathCauses::Railgun => reveal_strlit("MOD_RAILGUN"),
            DeathCauses::Lightning => reveal_strlit("MOD_LIGHTNING"),
            DeathCauses::Bfg => reveal_strlit("MOD_BFG"),
            DeathCauses::BfgSplash => reveal_strlit("MOD_BFG_SPLASH"),
            DeathCauses::Water => reveal_strlit("MOD_WATER"),
            DeathCauses::Slime => reveal_strlit("MOD_SLIME"),
            DeathCauses::Lava => reveal_strlit("MOD_LAVA"),
            DeathCauses::Crush => reveal_strlit("MOD_CRUSH"),
            DeathCauses::Telefrag => reveal_strlit("MOD_TELEFRAG"),
            DeathCauses::Falling => reveal_strlit("MOD_FALLING"),
            DeathCauses::Suicide => reveal_strlit("MOD_SUICIDE"),
            DeathCauses::TargetLaser => reveal_strlit("MOD_TARGET_LASER"),
            DeathCauses::TriggerHurt => reveal_strlit("MOD_TRIGGER_HURT"),
            DeathCauses::Nail => reveal_strlit("MOD_NAIL"),
            DeathCauses::Chaingun => reveal_strlit("MOD_CHAINGUN"),
            DeathCauses::ProximityMine => reveal_strlit("MOD_PROXIMITY_MINE"),
            DeathCauses::Kamikaze => reveal_strlit("MOD_KAMIKAZE"),
            DeathCauses::Juiced => reveal_strlit("MOD_JUICED"),
            DeathCauses::Grapple => reveal_strlit("MOD_GRAPPLE"),
        }
    }

    /// No two causes share a token.
    pub proof fn lemma_token_injective(self, other: DeathCauses)
        requires
            self.token() == other.token(),
        ensures
            self == other,
    {
        self.lemma_fingerprint();
        other.lemma_fingerprint();
    }

    /// Reading a cause's own token gives the cause back.
    pub proof fn lemma_of_token_round_trip(self)
        ensures
            Self::of_token(self.token()) == Some(self),
    {
        let found = choose|cause: DeathCauses| cause.token() == self.token();
        found.lemma_token_injective(self);
    }

    /// Every cause has a place below `CAUSE_COUNT`, and no two share one.
    pub proof fn lemma_index_injective(self, other: DeathCauses)
        ensures
            0 <= self.spec_index() < CAUSE_COUNT,
            self.spec_index() == other.spec_index() ==> self == other,
    {
    }

    /// The place of this cause in the fixed order in which causes are listed.
    pub fn index(&self) -> (i: usize)
        ensures
            i == self.spec_index(),
            i < CAUSE_COUNT,
    {
        match self {
            DeathCauses::Unknown => 0,
            DeathCauses::Shotgun => 1,
            DeathCauses::Gauntlet => 2,
            DeathCauses::MachineGun => 3,
            DeathCauses::Grenade => 4,
            DeathCauses::GrenadeSplash => 5,
            DeathCauses::Rocket => 6,
            DeathCauses::RocketSplash => 7,
            DeathCauses::Plasma => 8,
            DeathCauses::PlasmaSplash => 9,
            DeathCauses::Railgun => 10,
            DeathCauses::Lightning => 11,
            DeathCauses::Bfg => 12,
            DeathCauses::BfgSplash => 13,
            DeathCauses::Water => 14,
            DeathCauses::Slime => 15,
            DeathCauses::Lava => 16,
            DeathCauses::Crush => 17,
            DeathCauses::Telefrag => 18,
            DeathCauses::Falling => 19,
            DeathCauses::Suicide => 20,
            DeathCauses::TargetLaser => 21,
            DeathCauses::TriggerHurt => 22,
            DeathCauses::Nail => 23,
            DeathCauses::Chaingun => 24,
            DeathCauses::ProximityMine => 25,
            DeathCauses::Kamikaze => 26,
            DeathCauses::Juiced => 27,
            DeathCauses::Grapple => 28,
        }
    }

    /// The cause listed at place `i`.
    pub fn from_index(i: usize) -> (cause: DeathCauses)
        requires
            i < CAUSE_COUNT,
        ensures
            cause.spec_index() == i,
    {
        match i {
            0 => DeathCauses::Unknown,
            1 => DeathCauses::Shotgun,
            2 => DeathCauses::Gauntlet,
            3 => DeathCauses::MachineGun,
            4 => DeathCauses::Grenade,
            5 => DeathCauses::GrenadeSplash,
            6 => DeathCauses::Rocket,
            7 => DeathCauses::RocketSplash,
            8 => DeathCauses::Plasma,
            9 => DeathCauses::PlasmaSplash,
            10 => DeathCauses::Railgun,
            11 => DeathCauses::Lightning,
            12 => DeathCauses::Bfg,
            13 => DeathCauses::BfgSplash,
            14 => DeathCauses::Water,
            15 => DeathCauses::Slime,
            16 => DeathCauses::Lava,
            17 => DeathCauses::Crush,
            18 => DeathCauses::Telefrag,
            19 => DeathCauses::Falling,
            20 => DeathCauses::Suicide,
            21 => DeathCauses::TargetLaser,
            22 => DeathCauses::TriggerHurt,
            23 => DeathCauses::Nail,
            24 => DeathCauses::Chaingun,
            25 => DeathCauses::ProximityMine,
            26 => DeathCauses::Kamikaze,
            27 => DeathCauses::Juiced,
            28 => DeathCauses::Grapple,
            _ => DeathCauses::Grapple,
        }
    }

    /// The token of this cause, borrowed.
    pub fn as_str(&self) -> (token: &'static str)
        ensures
            token@ == self.token(),
    {
        match self {
            DeathCauses::Unknown => "MOD_UNKNOWN",
            DeathCauses::Shotgun => "MOD_SHOTGUN",
            DeathCauses::Gauntlet => "MOD_GAUNTLET",
            DeathCauses::MachineGun => "MOD_MACHINEGUN",
            DeathCauses::Grenade => "MOD_GRENADE",
            DeathCauses::GrenadeSplash => "MOD_GRENADE_SPLASH",
            DeathCauses::Rocket => "MOD_ROCKET",
            DeathCauses::RocketSplash => "MOD_ROCKET_SPLASH",
            DeathCauses::Plasma => "MOD_PLASMA",
            DeathCauses::PlasmaSplash => "MOD_PLASMA_SPLASH",
            DeathCauses::Railgun => "MOD_RAILGUN",
            DeathCauses::Lightning => "MOD_LIGHTNING",
            DeathCauses::Bfg => "MOD_BFG",
            DeathCauses::BfgSplash => "MOD_BFG_SPLASH",
            DeathCauses::Water => "MOD_WATER",
            DeathCauses::Slime => "MOD_SLIME",
            DeathCauses::Lava => "MOD_LAVA",
            DeathCauses::Crush => "MOD_CRUSH",
            DeathCauses::Telefrag => "MOD_TELEFRAG",
            DeathCauses::Falling => "MOD_FALLING",
            DeathCauses::Suicide => "MOD_SUICIDE",
            DeathCauses::TargetLaser => "MOD_TARGET_LASER",
            DeathCauses::TriggerHurt => "MOD_TRIGGER_HURT",
            DeathCauses::Nail => "MOD_NAIL",
            DeathCauses::Chaingun => "MOD_CHAINGUN",
            DeathCauses::ProximityMine => "MOD_PROXIMITY_MINE",
            DeathCauses::Kamikaze => "MOD_KAMIKAZE",
            DeathCauses::Juiced => "MOD_JUICED",
            DeathCauses::Grapple => "MOD_GRAPPLE",
        }
    }

    /// The token of this cause, as it stands in a log line.
    pub fn to_string(&self) -> (token: String)
        ensures
            token@ == self.token(),
    {
        self.as_str().to_string()
    }

    /// Reads a cause from its token. The token must be one of the known ones,
    /// letter for letter; anything else is refused with `"Invalid string"`.
    pub fn from_str(s: &str) -> (r: Result<DeathCauses, String>)
        ensures
            match r {
                Ok(cause) => Self::of_token(s@) == Some(cause),
                Err(message) => Self::of_token(s@) is None && message@ == "Invalid string"@,
            },
    {
        let mut i: usize = 0;
        while i < CAUSE_COUNT
            invariant
                i <= CAUSE_COUNT,
                forall|cause: DeathCauses| cause.spec_index() < i ==> cause.token() != s@,
            decreases CAUSE_COUNT - i,
        {
            let cause = DeathCauses::from_index(i);
            if same_text(cause.as_str(), s) {
                proof {
                    cause.lemma_of_token_round_trip();
                }
                return Ok(cause);
            }
            proof {
                assert forall|other: DeathCauses| other.spec_index() < i + 1 implies other.token() != s@ by {
                    other.lemma_index_injective(cause);
                }
            }
            i += 1;
        }
        proof {
            assert forall|cause: DeathCauses| cause.token() != s@ by {
                cause.lemma_index_injective(cause);
            }
        }
        Err("Invalid string".to_string())
    }
}

} // verus!
