use vstd::prelude::*;
use vstd::string::*;


verus! {

/// A note block instrument as stored in NBS song files (by index).
#[derive(Debug, Copy, Clone, PartialEq, Eq, Structural, Hash)]
pub enum NbsInstrument {
    Harp,
    Bass,
    Basedrum,
    Snare,
    Hat,
    Guitar,
    Flute,
    Bell,
    Chime,
    Xylophone,
    IronXylophone,
    CowBell,
    Didgeridoo,
    Bit,
    Banjo,
    Pling,
    Zombie,
    Skeleton,
    Creeper,
    Dragon,
    WitherSkeleton,
    Piglin,
    CustomHead,
}

/// Index of an instrument in NBS files (and its position in `NbsInstrument::values`).
pub open spec fn instrument_index(i: NbsInstrument) -> u8 {
    match i {
        NbsInstrument::Harp => 0,
        NbsInstrument::Bass => 1,
        NbsInstrument::Basedrum => 2,
        NbsInstrument::Snare => 3,
        NbsInstrument::Hat => 4,
        NbsInstrument::Guitar => 5,
        NbsInstrument::Flute => 6,
        NbsInstrument::Bell => 7,
        NbsInstrument::Chime => 8,
        NbsInstrument::Xylophone => 9,
        NbsInstrument::IronXylophone => 10,
        NbsInstrument::CowBell => 11,
        NbsInstrument::Didgeridoo => 12,
        NbsInstrument::Bit => 13,
        NbsInstrument::Banjo => 14,
        NbsInstrument::Pling => 15,
        NbsInstrument::Zombie => 16,
        NbsInstrument::Skeleton => 17,
        NbsInstrument::Creeper => 18,
        NbsInstrument::Dragon => 19,
        NbsInstrument::WitherSkeleton => 20,
        NbsInstrument::Piglin => 21,
        NbsInstrument::CustomHead => 22,
    }
}

/// The instrument stored under an index, if any.
pub open spec fn instrument_of_index(v: int) -> Option<NbsInstrument> {
    if v == 0 {
        Some(NbsInstrument::Harp)
    } else if v == 1 {
        Some(NbsInstrument::Bass)
    } else if v == 2 {
        Some(NbsInstrument::Basedrum)
    } else if v == 3 {
        Some(NbsInstrument::Snare)
    } else if v == 4 {
        Some(NbsInstrument::Hat)
    } else if v == 5 {
        Some(NbsInstrument::Guitar)
    } else if v == 6 {
        Some(NbsInstrument::Flute)
    } else if v == 7 {
        Some(NbsInstrument::Bell)
    } else if v == 8 {
        Some(NbsInstrument::Chime)
    } else if v == 9 {
        Some(NbsInstrument::Xylophone)
    } else if v == 10 {
        Some(NbsInstrument::IronXylophone)
    } else if v == 11 {
        Some(NbsInstrument::CowBell)
    } else if v == 12 {
        Some(NbsInstrument::Didgeridoo)
    } else if v == 13 {
        Some(NbsInstrument::Bit)
    } else if v == 14 {
        Some(NbsInstrument::Banjo)
    } else if v == 15 {
        Some(NbsInstrument::Pling)
    } else if v == 16 {
        Some(NbsInstrument::Zombie)
    } else if v == 17 {
        Some(NbsInstrument::Skeleton)
    } else if v == 18 {
        Some(NbsInstrument::Creeper)
    } else if v == 19 {
        Some(NbsInstrument::Dragon)
    } else if v == 20 {
        Some(NbsInstrument::WitherSkeleton)
    } else if v == 21 {
        Some(NbsInstrument::Piglin)
    } else if v == 22 {
        Some(NbsInstrument::CustomHead)
    } else {
        None
    }
}

/// Minecraft name of an instrument.
pub open spec fn instrument_name(i: NbsInstrument) -> Seq<char> {
    match i {
        NbsInstrument::Harp => "harp"@,
        NbsInstrument::Bass => "bass"@,
        NbsInstrument::Basedrum => "basedrum"@,
        NbsInstrument::Snare => "snare"@,
        NbsInstrument::Hat => "hat"@,
        NbsInstrument::Guitar => "guitar"@,
        NbsInstrument::Flute => "flute"@,
        NbsInstrument::Bell => "bell"@,
        NbsInstrument::Chime => "chime"@,
        NbsInstrument::Xylophone => "xylophone"@,
        NbsInstrument::IronXylophone => "iron_xylophone"@,
        NbsInstrument::CowBell => "cow_bell"@,
        NbsInstrument::Didgeridoo => "didgeridoo"@,
        NbsInstrument::Bit => "bit"@,
        NbsInstrument::Banjo => "banjo"@,
        NbsInstrument::Pling => "bling"@,
        NbsInstrument::Zombie => "zombie"@,
        NbsInstrument::Skeleton => "skeleton"@,
        NbsInstrument::Creeper => "creeper"@,
        NbsInstrument::Dragon => "dragon"@,
        NbsInstrument::WitherSkeleton => "wither_skeleton"@,
        NbsInstrument::Piglin => "piglin"@,
        NbsInstrument::CustomHead => "custom_head"@,
    }
}

/// A block that, placed below a note block, selects the instrument.
pub open spec fn instrument_block_name(i: NbsInstrument) -> Seq<char> {
    match i {
        NbsInstrument::Harp => "Air"@,
        NbsInstrument::Bass => "Oak Planks"@,
        NbsInstrument::Basedrum => "Stone"@,
        NbsInstrument::Snare => "Sand"@,
        NbsInstrument::Hat => "Glass"@,
        NbsInstrument::Guitar => "Wool"@,
        NbsInstrument::Flute => "Clay"@,
        NbsInstrument::Bell => "Gold"@,
        NbsInstrument::Chime => "Packed Ice"@,
        NbsInstrument::Xylophone => "Bone"@,
        NbsInstrument::IronXylophone => "Iron"@,
        NbsInstrument::CowBell => "Soul Sand"@,
        NbsInstrument::Didgeridoo => "Pumpkin"@,
        NbsInstrument::Bit => "Emerald"@,
        NbsInstrument::Banjo => "Hay"@,
        NbsInstrument::Pling => "Glowstone"@,
        NbsInstrument::Zombie => "Zombie Head"@,
        NbsInstrument::Skeleton => "Skeleton Head"@,
        NbsInstrument::Creeper => "Creeper Head"@,
        NbsInstrument::Dragon => "Dragon Head"@,
        NbsInstrument::WitherSkeleton => "Wither Skeleton Head"@,
        NbsInstrument::Piglin => "Piglin Head"@,
        NbsInstrument::CustomHead => "Custom Head"@,
    }
}

/// All instruments, in index order.
pub open spec fn all_instruments() -> Seq<NbsInstrument> {
    seq![
        NbsInstrument::Harp,
        NbsInstrument::Bass,
        NbsInstrument::Basedrum,
        NbsInstrument::Snare,
        NbsInstrument::Hat,
        NbsInstrument::Guitar,
        NbsInstrument::Flute,
        NbsInstrument::Bell,
        NbsInstrument::Chime,
        NbsInstrument::Xylophone,
        NbsInstrument::IronXylophone,
        NbsInstrument::CowBell,
        NbsInstrument::Didgeridoo,
        NbsInstrument::Bit,
        NbsInstrument::Banjo,
        NbsInstrument::Pling,
        NbsInstrument::Zombie,
        NbsInstrument::Skeleton,
        NbsInstrument::Creeper,
        NbsInstrument::Dragon,
        NbsInstrument::WitherSkeleton,
        NbsInstrument::Piglin,
        NbsInstrument::CustomHead,
    ]
}

/// A note block pitch (the number of right clicks from F#3).
#[derive(Debug, Copy, Clone, PartialEq, Eq, Structural, Hash)]
pub enum NbsPitch {
    N00Oct1FSharp,
    N01Oct1G,
    N02Oct1GSharp,
    N03Oct1A,
    N04Oct1ASharp,
    N05Oct1B,
    N06Oct1C,
    N07Oct1CSharp,
    N08Oct1D,
    N09Oct1DSharp,
    N10Oct1E,
    N11Oct1F,
    N12Oct2FSharp,
    N13Oct2G,
    N14Oct2GSharp,
    N15Oct2A,
    N16Oct2ASharp,
    N17Oct2B,
    N18Oct2C,
    N19Oct2CSharp,
    N20Oct2D,
    N21Oct2DSharp,
    N22Oct2E,
    N23Oct2F,
    N24Oct3FSharp,
}

/// Ordinal of a pitch (0 to 24).
pub open spec fn pitch_ordinal(p: NbsPitch) -> u8 {
    match p {
        NbsPitch::N00Oct1FSharp => 0,
        NbsPitch::N01Oct1G => 1,
        NbsPitch::N02Oct1GSharp => 2,
        NbsPitch::N03Oct1A => 3,
        NbsPitch::N04Oct1ASharp => 4,
        NbsPitch::N05Oct1B => 5,
        NbsPitch::N06Oct1C => 6,
        NbsPitch::N07Oct1CSharp => 7,
        NbsPitch::N08Oct1D => 8,
        NbsPitch::N09Oct1DSharp => 9,
        NbsPitch::N10Oct1E => 10,
        NbsPitch::N11Oct1F => 11,
        NbsPitch::N12Oct2FSharp => 12,
        NbsPitch::N13Oct2G => 13,
        NbsPitch::N14Oct2GSharp => 14,
        NbsPitch::N15Oct2A => 15,
        NbsPitch::N16Oct2ASharp => 16,
        NbsPitch::N17Oct2B => 17,
        NbsPitch::N18Oct2C => 18,
        NbsPitch::N19Oct2CSharp => 19,
        NbsPitch::N20Oct2D => 20,
        NbsPitch::N21Oct2DSharp => 21,
        NbsPitch::N22Oct2E => 22,
        NbsPitch::N23Oct2F => 23,
        NbsPitch::N24Oct3FSharp => 24,
    }
}

/// The pitch with an ordinal, if any.
pub open spec fn pitch_of_ordinal(v: int) -> Option<NbsPitch> {
    if v == 0 {
        Some(NbsPitch::N00Oct1FSharp)
    } else if v == 1 {
        Some(NbsPitch::N01Oct1G)
    } else if v == 2 {
        Some(NbsPitch::N02Oct1GSharp)
    } else if v == 3 {
        Some(NbsPitch::N03Oct1A)
    } else if v == 4 {
        Some(NbsPitch::N04Oct1ASharp)
    } else if v == 5 {
        Some(NbsPitch::N05Oct1B)
    } else if v == 6 {
        Some(NbsPitch::N06Oct1C)
    } else if v == 7 {
        Some(NbsPitch::N07Oct1CSharp)
    } else if v == 8 {
        Some(NbsPitch::N08Oct1D)
    } else if v == 9 {
        Some(NbsPitch::N09Oct1DSharp)
    } else if v == 10 {
        Some(NbsPitch::N10Oct1E)
    } else if v == 11 {
        Some(NbsPitch::N11Oct1F)
    } else if v == 12 {
        Some(NbsPitch::N12Oct2FSharp)
    } else if v == 13 {
        Some(NbsPitch::N13Oct2G)
    } else if v == 14 {
        Some(NbsPitch::N14Oct2GSharp)
    } else if v == 15 {
        Some(NbsPitch::N15Oct2A)
    } else if v == 16 {
        Some(NbsPitch::N16Oct2ASharp)
    } else if v == 17 {
        Some(NbsPitch::N17Oct2B)
    } else if v == 18 {
        Some(NbsPitch::N18Oct2C)
    } else if v == 19 {
        Some(NbsPitch::N19Oct2CSharp)
    } else if v == 20 {
        Some(NbsPitch::N20Oct2D)
    } else if v == 21 {
        Some(NbsPitch::N21Oct2DSharp)
    } else if v == 22 {
        Some(NbsPitch::N22Oct2E)
    } else if v == 23 {
        Some(NbsPitch::N23Oct2F)
    } else if v == 24 {
        Some(NbsPitch::N24Oct3FSharp)
    } else {
        None
    }
}

/// All pitches, in ordinal order.
pub open spec fn all_pitches() -> Seq<NbsPitch> {
    seq![
        NbsPitch::N00Oct1FSharp,
        NbsPitch::N01Oct1G,
        NbsPitch::N02Oct1GSharp,
        NbsPitch::N03Oct1A,
        NbsPitch::N04Oct1ASharp,
        NbsPitch::N05Oct1B,
        NbsPitch::N06Oct1C,
        NbsPitch::N07Oct1CSharp,
        NbsPitch::N08Oct1D,
        NbsPitch::N09Oct1DSharp,
        NbsPitch::N10Oct1E,
        NbsPitch::N11Oct1F,
        NbsPitch::N12Oct2FSharp,
        NbsPitch::N13Oct2G,
        NbsPitch::N14Oct2GSharp,
        NbsPitch::N15Oct2A,
        NbsPitch::N16Oct2ASharp,
        NbsPitch::N17Oct2B,
        NbsPitch::N18Oct2C,
        NbsPitch::N19Oct2CSharp,
        NbsPitch::N20Oct2D,
        NbsPitch::N21Oct2DSharp,
        NbsPitch::N22Oct2E,
        NbsPitch::N23Oct2F,
        NbsPitch::N24Oct3FSharp,
    ]
}

impl NbsInstrument {
    /// The Minecraft name of the instrument.
    pub fn name(&self) -> (r: &'static str)
        ensures
            r@ == instrument_name(*self),
    {
        match self {
            NbsInstrument::Harp => "harp",
            NbsInstrument::Bass => "bass",
            NbsInstrument::Basedrum => "basedrum",
            NbsInstrument::Snare => "snare",
            NbsInstrument::Hat => "hat",
            NbsInstrument::Guitar => "guitar",
            NbsInstrument::Flute => "flute",
            NbsInstrument::Bell => "bell",
            NbsInstrument::Chime => "chime",
            NbsInstrument::Xylophone => "xylophone",
            NbsInstrument::IronXylophone => "iron_xylophone",
            NbsInstrument::CowBell => "cow_bell",
            NbsInstrument::Didgeridoo => "didgeridoo",
            NbsInstrument::Bit => "bit",
            NbsInstrument::Banjo => "banjo",
            NbsInstrument::Pling => "bling",
            NbsInstrument::Zombie => "zombie",
            NbsInstrument::Skeleton => "skeleton",
            NbsInstrument::Creeper => "creeper",
            NbsInstrument::Dragon => "dragon",
            NbsInstrument::WitherSkeleton => "wither_skeleton",
            NbsInstrument::Piglin => "piglin",
            NbsInstrument::CustomHead => "custom_head",
        }
    }

    /// Index of the instrument in NBS files.
    pub fn index(&self) -> (r: u8)
        ensures
            r == instrument_index(*self),
    {
        match self {
            NbsInstrument::Harp => 0,
            NbsInstrument::Bass => 1,
            NbsInstrument::Basedrum => 2,
            NbsInstrument::Snare => 3,
            NbsInstrument::Hat => 4,
            NbsInstrument::Guitar => 5,
            NbsInstrument::Flute => 6,
            NbsInstrument::Bell => 7,
            NbsInstrument::Chime => 8,
            NbsInstrument::Xylophone => 9,
            NbsInstrument::IronXylophone => 10,
            NbsInstrument::CowBell => 11,
            NbsInstrument::Didgeridoo => 12,
            NbsInstrument::Bit => 13,
            NbsInstrument::Banjo => 14,
            NbsInstrument::Pling => 15,
            NbsInstrument::Zombie => 16,
            NbsInstrument::Skeleton => 17,
            NbsInstrument::Creeper => 18,
            NbsInstrument::Dragon => 19,
            NbsInstrument::WitherSkeleton => 20,
            NbsInstrument::Piglin => 21,
            NbsInstrument::CustomHead => 22,
        }
    }

    /// The instrument with the given NBS index, if it is a supported one.
    pub fn from_index(value: u8) -> (r: Option<NbsInstrument>)
        ensures
            r == instrument_of_index(value as int),
    {
        match value {
            0 => Some(NbsInstrument::Harp),
            1 => Some(NbsInstrument::Bass),
            2 => Some(NbsInstrument::Basedrum),
            3 => Some(NbsInstrument::Snare),
            4 => Some(NbsInstrument::Hat),
            5 => Some(NbsInstrument::Guitar),
            6 => Some(NbsInstrument::Flute),
            7 => Some(NbsInstrument::Bell),
            8 => Some(NbsInstrument::Chime),
            9 => Some(NbsInstrument::Xylophone),
            10 => Some(NbsInstrument::IronXylophone),
            11 => Some(NbsInstrument::CowBell),
            12 => Some(NbsInstrument::Didgeridoo),
            13 => Some(NbsInstrument::Bit),
            14 => Some(NbsInstrument::Banjo),
            15 => Some(NbsInstrument::Pling),
            16 => Some(NbsInstrument::Zombie),
            17 => Some(NbsInstrument::Skeleton),
            18 => Some(NbsInstrument::Creeper),
            19 => Some(NbsInstrument::Dragon),
            20 => Some(NbsInstrument::WitherSkeleton),
            21 => Some(NbsInstrument::Piglin),
            22 => Some(NbsInstrument::CustomHead),
            _ => None,
        }
    }

    /// A block that selects this instrument (a head on top for mob instruments).
    pub fn example_instrument_block_name(&self) -> (r: &'static str)
        ensures
            r@ == instrument_block_name(*self),
    {
        match self {
            NbsInstrument::Harp => "Air",
            NbsInstrument::Bass => "Oak Planks",
            NbsInstrument::Basedrum => "Stone",
            NbsInstrument::Snare => "Sand",
            NbsInstrument::Hat => "Glass",
            NbsInstrument::Guitar => "Wool",
            NbsInstrument::Flute => "Clay",
            NbsInstrument::Bell => "Gold",
            NbsInstrument::Chime => "Packed Ice",
            NbsInstrument::Xylophone => "Bone",
            NbsInstrument::IronXylophone => "Iron",
            NbsInstrument::CowBell => "Soul Sand",
            NbsInstrument::Didgeridoo => "Pumpkin",
            NbsInstrument::Bit => "Emerald",
            NbsInstrument::Banjo => "Hay",
            NbsInstrument::Pling => "Glowstone",
            NbsInstrument::Zombie => "Zombie Head",
            NbsInstrument::Skeleton => "Skeleton Head",
            NbsInstrument::Creeper => "Creeper Head",
            NbsInstrument::Dragon => "Dragon Head",
            NbsInstrument::WitherSkeleton => "Wither Skeleton Head",
            NbsInstrument::Piglin => "Piglin Head",
            NbsInstrument::CustomHead => "Custom Head",
        }
    }

    /// All instruments in index order.
    pub fn values() -> (r: Vec<NbsInstrument>)
        ensures
            r@ == all_instruments(),
    {
        let mut v: Vec<NbsInstrument> = Vec::new();
        v.push(NbsInstrument::Harp);
        v.push(NbsInstrument::Bass);
        v.push(NbsInstrument::Basedrum);
        v.push(NbsInstrument::Snare);
        v.push(NbsInstrument::Hat);
        v.push(NbsInstrument::Guitar);
        v.push(NbsInstrument::Flute);
        v.push(NbsInstrument::Bell);
        v.push(NbsInstrument::Chime);
        v.push(NbsInstrument::Xylophone);
        v.push(NbsInstrument::IronXylophone);
        v.push(NbsInstrument::CowBell);
        v.push(NbsInstrument::Didgeridoo);
        v.push(NbsInstrument::Bit);
        v.push(NbsInstrument::Banjo);
        v.push(NbsInstrument::Pling);
        v.push(NbsInstrument::Zombie);
        v.push(NbsInstrument::Skeleton);
        v.push(NbsInstrument::Creeper);
        v.push(NbsInstrument::Dragon);
        v.push(NbsInstrument::WitherSkeleton);
        v.push(NbsInstrument::Piglin);
        v.push(NbsInstrument::CustomHead);
        v
    }
}

impl NbsPitch {
    /// Ordinal of the pitch (0 to 24).
    pub fn ordinal(&self) -> (r: u8)
        ensures
            r == pitch_ordinal(*self),
    {
        match self {
            NbsPitch::N00Oct1FSharp => 0,
            NbsPitch::N01Oct1G => 1,
            NbsPitch::N02Oct1GSharp => 2,
            NbsPitch::N03Oct1A => 3,
            NbsPitch::N04Oct1ASharp => 4,
            NbsPitch::N05Oct1B => 5,
            NbsPitch::N06Oct1C => 6,
            NbsPitch::N07Oct1CSharp => 7,
            NbsPitch::N08Oct1D => 8,
            NbsPitch::N09Oct1DSharp => 9,
            NbsPitch::N10Oct1E => 10,
            NbsPitch::N11Oct1F => 11,
            NbsPitch::N12Oct2FSharp => 12,
            NbsPitch::N13Oct2G => 13,
            NbsPitch::N14Oct2GSharp => 14,
            NbsPitch::N15Oct2A => 15,
            NbsPitch::N16Oct2ASharp => 16,
            NbsPitch::N17Oct2B => 17,
            NbsPitch::N18Oct2C => 18,
            NbsPitch::N19Oct2CSharp => 19,
            NbsPitch::N20Oct2D => 20,
            NbsPitch::N21Oct2DSharp => 21,
            NbsPitch::N22Oct2E => 22,
            NbsPitch::N23Oct2F => 23,
            NbsPitch::N24Oct3FSharp => 24,
        }
    }

    /// The pitch with the given ordinal, if it lies in 0..=24.
    pub fn from_ordinal(value: u8) -> (r: Option<NbsPitch>)
        ensures
            r == pitch_of_ordinal(value as int),
    {
        match value {
            0 => Some(NbsPitch::N00Oct1FSharp),
            1 => Some(NbsPitch::N01Oct1G),
            2 => Some(NbsPitch::N02Oct1GSharp),
            3 => Some(NbsPitch::N03Oct1A),
            4 => Some(NbsPitch::N04Oct1ASharp),
            5 => Some(NbsPitch::N05Oct1B),
            6 => Some(NbsPitch::N06Oct1C),
            7 => Some(NbsPitch::N07Oct1CSharp),
            8 => Some(NbsPitch::N08Oct1D),
            9 => Some(NbsPitch::N09Oct1DSharp),
            10 => Some(NbsPitch::N10Oct1E),
            11 => Some(NbsPitch::N11Oct1F),
            12 => Some(NbsPitch::N12Oct2FSharp),
            13 => Some(NbsPitch::N13Oct2G),
            14 => Some(NbsPitch::N14Oct2GSharp),
            15 => Some(NbsPitch::N15Oct2A),
            16 => Some(NbsPitch::N16Oct2ASharp),
            17 => Some(NbsPitch::N17Oct2B),
            18 => Some(NbsPitch::N18Oct2C),
            19 => Some(NbsPitch::N19Oct2CSharp),
            20 => Some(NbsPitch::N20Oct2D),
            21 => Some(NbsPitch::N21Oct2DSharp),
            22 => Some(NbsPitch::N22Oct2E),
            23 => Some(NbsPitch::N23Oct2F),
            24 => Some(NbsPitch::N24Oct3FSharp),
            _ => None,
        }
    }

    /// All pitches in ordinal order.
    pub fn values() -> (r: Vec<NbsPitch>)
        ensures
            r@ == all_pitches(),
    {
        let mut v: Vec<NbsPitch> = Vec::new();
        v.push(NbsPitch::N00Oct1FSharp);
        v.push(NbsPitch::N01Oct1G);
        v.push(NbsPitch::N02Oct1GSharp);
        v.push(NbsPitch::N03Oct1A);
        v.push(NbsPitch::N04Oct1ASharp);
        v.push(NbsPitch::N05Oct1B);
        v.push(NbsPitch::N06Oct1C);
        v.push(NbsPitch::N07Oct1CSharp);
        v.push(NbsPitch::N08Oct1D);
        v.push(NbsPitch::N09Oct1DSharp);
        v.push(NbsPitch::N10Oct1E);
        v.push(NbsPitch::N11Oct1F);
        v.push(NbsPitch::N12Oct2FSharp);
        v.push(NbsPitch::N13Oct2G);
        v.push(NbsPitch::N14Oct2GSharp);
        v.push(NbsPitch::N15Oct2A);
        v.push(NbsPitch::N16Oct2ASharp);
        v.push(NbsPitch::N17Oct2B);
        v.push(NbsPitch::N18Oct2C);
        v.push(NbsPitch::N19Oct2CSharp);
        v.push(NbsPitch::N20Oct2D);
        v.push(NbsPitch::N21Oct2DSharp);
        v.push(NbsPitch::N22Oct2E);
        v.push(NbsPitch::N23Oct2F);
        v.push(NbsPitch::N24Oct3FSharp);
        v
    }
}

} // verus!
