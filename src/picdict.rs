//! The picture dictionary: the PICs of the game in one order for every
//! game type, whose files number them differently.
use vstd::prelude::*;
use crate::assets::{GfxData, copy_pic};
use vstd::string::StrSliceExecFns;

verus! {

/// The PICs, in the order the dictionary keeps them.
#[derive(Clone, Copy, PartialEq, Eq, Structural, Debug)]
pub enum PicType {
    BackDropScreen,
    OptionTitle,
    Cursor1,
    Cursor2,
    SelectionOff,
    SelectionOn,
    SoundFxTitle,
    DigiSoundTitle,
    MusicTitle,
    MoveSelBack,
    DifficultyBaby,
    DifficultyEasy,
    DifficultyMedium,
    DifficultyHard,
    LoadSaveFloppy,
    DiskLoading1,
    DiskLoading2,
    ControlTitle,
    CustomizeTitle,
    LoadGameTitle,
    SaveGameTitle,
    Episode1,
    Episode2,
    Episode3,
    Episode4,
    Episode5,
    Episode6,
    FloorEndGuy,
    FloorEndColon,
    FloorEndNum0,
    FloorEndNum1,
    FloorEndNum2,
    FloorEndNum3,
    FloorEndNum4,
    FloorEndNum5,
    FloorEndNum6,
    FloorEndNum7,
    FloorEndNum8,
    FloorEndNum9,
    FloorEndPercent,
    FloorEndLetterA,
    FloorEndLetterB,
    FloorEndLetterC,
    FloorEndLetterD,
    FloorEndLetterE,
    FloorEndLetterF,
    FloorEndLetterG,
    FloorEndLetterH,
    FloorEndLetterI,
    FloorEndLetterJ,
    FloorEndLetterK,
    FloorEndLetterL,
    FloorEndLetterM,
    FloorEndLetterN,
    FloorEndLetterO,
    FloorEndLetterP,
    FloorEndLetterQ,
    FloorEndLetterR,
    FloorEndLetterS,
    FloorEndLetterT,
    FloorEndLetterU,
    FloorEndLetterV,
    FloorEndLetterW,
    FloorEndLetterX,
    FloorEndLetterY,
    FloorEndLetterZ,
    FloorEndExclamation,
    FloorEndApostrophe,
    FloorEndGuy2,
    FloorEndWinnerBJ,
    StatusBar,
    TitleScreen,
    Pg13Pic,
    CreditsScreen,
    HighScoresTitle,
    StatusKnife,
    StatusPistol,
    StatusMachineGun,
    StatusChainGun,
    StatusNoKey,
    StatusGoldKey,
    StatusSilverKey,
    StatusNumBlank,
    StatusNum0,
    StatusNum1,
    StatusNum2,
    StatusNum3,
    StatusNum4,
    StatusNum5,
    StatusNum6,
    StatusNum7,
    StatusNum8,
    StatusNum9,
    StatusFace1A,
    StatusFace1B,
    StatusFace1C,
    StatusFace2A,
    StatusFace2B,
    StatusFace2C,
    StatusFace3A,
    StatusFace3B,
    StatusFace3C,
    StatusFace4A,
    StatusFace4B,
    StatusFace4C,
    StatusFace5A,
    StatusFace5B,
    StatusFace5C,
    StatusFace6A,
    StatusFace6B,
    StatusFace6C,
    StatusFace7A,
    StatusFace7B,
    StatusFace7C,
    StatusFaceDead,
    StatusFaceGatling,
    StatusFaceGod1,
    StatusFaceGod2,
    StatusFaceGod3,
    Paused,
    GetPsyched,
}

pub const BACK_DROP: usize = 0;
pub const OPTION_TITLE: usize = 1;
pub const SAVE_TITLE: usize = 20;
pub const EPISODE_6: usize = 26;
pub const FLOOR_END_GUY: usize = 27;
pub const FLOOR_END_WINNER: usize = 69;
pub const STATUS_BAR: usize = 70;
pub const TITLE_SCREEN: usize = 71;
pub const PG13_PIC: usize = 72;
pub const CREDITS_SCREEN: usize = 73;
pub const HIGH_SCORES: usize = 74;
pub const STATUS_KNIFE: usize = 75;
pub const STATUS_GOD1: usize = 116;
pub const STATUS_GOD2: usize = 117;
pub const STATUS_GOD3: usize = 118;
pub const PAUSED: usize = 119;
pub const GET_PSYCHED: usize = 120;
pub const TOTAL_PICS: usize = 121;
/// Index meaning "no such pic in this game".
pub const BAD_IDX: usize = 0xFFFF;

impl PicType {
    pub open spec fn spec_index(self) -> usize {
        match self {
            PicType::BackDropScreen => 0,
            PicType::OptionTitle => 1,
            PicType::Cursor1 => 2,
            PicType::Cursor2 => 3,
            PicType::SelectionOff => 4,
            PicType::SelectionOn => 5,
            PicType::SoundFxTitle => 6,
            PicType::DigiSoundTitle => 7,
            PicType::MusicTitle => 8,
            PicType::MoveSelBack => 9,
            PicType::DifficultyBaby => 10,
            PicType::DifficultyEasy => 11,
            PicType::DifficultyMedium => 12,
            PicType::DifficultyHard => 13,
            PicType::LoadSaveFloppy => 14,
            PicType::DiskLoading1 => 15,
            PicType::DiskLoading2 => 16,
            PicType::ControlTitle => 17,
            PicType::CustomizeTitle => 18,
            PicType::LoadGameTitle => 19,
            PicType::SaveGameTitle => 20,
            PicType::Episode1 => 21,
            PicType::Episode2 => 22,
            PicType::Episode3 => 23,
            PicType::Episode4 => 24,
            PicType::Episode5 => 25,
            PicType::Episode6 => 26,
            PicType::FloorEndGuy => 27,
            PicType::FloorEndColon => 28,
            PicType::FloorEndNum0 => 29,
            PicType::FloorEndNum1 => 30,
            PicType::FloorEndNum2 => 31,
            PicType::FloorEndNum3 => 32,
            PicType::FloorEndNum4 => 33,
            PicType::FloorEndNum5 => 34,
            PicType::FloorEndNum6 => 35,
            PicType::FloorEndNum7 => 36,
            PicType::FloorEndNum8 => 37,
            PicType::FloorEndNum9 => 38,
            PicType::FloorEndPercent => 39,
            PicType::FloorEndLetterA => 40,
            PicType::FloorEndLetterB => 41,
            PicType::FloorEndLetterC => 42,
            PicType::FloorEndLetterD => 43,
            PicType::FloorEndLetterE => 44,
            PicType::FloorEndLetterF => 45,
            PicType::FloorEndLetterG => 46,
            PicType::FloorEndLetterH => 47,
            PicType::FloorEndLetterI => 48,
            PicType::FloorEndLetterJ => 49,
            PicType::FloorEndLetterK => 50,
            PicType::FloorEndLetterL => 51,
            PicType::FloorEndLetterM => 52,
            PicType::FloorEndLetterN => 53,
            PicType::FloorEndLetterO => 54,
            PicType::FloorEndLetterP => 55,
            PicType::FloorEndLetterQ => 56,
            PicType::FloorEndLetterR => 57,
            PicType::FloorEndLetterS => 58,
            PicType::FloorEndLetterT => 59,
            PicType::FloorEndLetterU => 60,
            PicType::FloorEndLetterV => 61,
            PicType::FloorEndLetterW => 62,
            PicType::FloorEndLetterX => 63,
            PicType::FloorEndLetterY => 64,
            PicType::FloorEndLetterZ => 65,
            PicType::FloorEndExclamation => 66,
            PicType::FloorEndApostrophe => 67,
            PicType::FloorEndGuy2 => 68,
            PicType::FloorEndWinnerBJ => 69,
            PicType::StatusBar => 70,
            PicType::TitleScreen => 71,
            PicType::Pg13Pic => 72,
            PicType::CreditsScreen => 73,
            PicType::HighScoresTitle => 74,
            PicType::StatusKnife => 75,
            PicType::StatusPistol => 76,
            PicType::StatusMachineGun => 77,
            PicType::StatusChainGun => 78,
            PicType::StatusNoKey => 79,
            PicType::StatusGoldKey => 80,
            PicType::StatusSilverKey => 81,
            PicType::StatusNumBlank => 82,
            PicType::StatusNum0 => 83,
            PicType::StatusNum1 => 84,
            PicType::StatusNum2 => 85,
            PicType::StatusNum3 => 86,
            PicType::StatusNum4 => 87,
            PicType::StatusNum5 => 88,
            PicType::StatusNum6 => 89,
            PicType::StatusNum7 => 90,
            PicType::StatusNum8 => 91,
            PicType::StatusNum9 => 92,
            PicType::StatusFace1A => 93,
            PicType::StatusFace1B => 94,
            PicType::StatusFace1C => 95,
            PicType::StatusFace2A => 96,
            PicType::StatusFace2B => 97,
            PicType::StatusFace2C => 98,
            PicType::StatusFace3A => 99,
            PicType::StatusFace3B => 100,
            PicType::StatusFace3C => 101,
            PicType::StatusFace4A => 102,
            PicType::StatusFace4B => 103,
            PicType::StatusFace4C => 104,
            PicType::StatusFace5A => 105,
            PicType::StatusFace5B => 106,
            PicType::StatusFace5C => 107,
            PicType::StatusFace6A => 108,
            PicType::StatusFace6B => 109,
            PicType::StatusFace6C => 110,
            PicType::StatusFace7A => 111,
            PicType::StatusFace7B => 112,
            PicType::StatusFace7C => 113,
            PicType::StatusFaceDead => 114,
            PicType::StatusFaceGatling => 115,
            PicType::StatusFaceGod1 => 116,
            PicType::StatusFaceGod2 => 117,
            PicType::StatusFaceGod3 => 118,
            PicType::Paused => 119,
            PicType::GetPsyched => 120,
        }
    }

    /// Position of the pic in the dictionary.
    pub fn index(self) -> (r: usize)
        ensures
            r == self.spec_index(),
            r < TOTAL_PICS,
    {
        match self {
            PicType::BackDropScreen => 0,
            PicType::OptionTitle => 1,
            PicType::Cursor1 => 2,
            PicType::Cursor2 => 3,
            PicType::SelectionOff => 4,
            PicType::SelectionOn => 5,
            PicType::SoundFxTitle => 6,
            PicType::DigiSoundTitle => 7,
            PicType::MusicTitle => 8,
            PicType::MoveSelBack => 9,
            PicType::DifficultyBaby => 10,
            PicType::DifficultyEasy => 11,
            PicType::DifficultyMedium => 12,
            PicType::DifficultyHard => 13,
            PicType::LoadSaveFloppy => 14,
            PicType::DiskLoading1 => 15,
            PicType::DiskLoading2 => 16,
            PicType::ControlTitle => 17,
            PicType::CustomizeTitle => 18,
            PicType::LoadGameTitle => 19,
            PicType::SaveGameTitle => 20,
            PicType::Episode1 => 21,
            PicType::Episode2 => 22,
            PicType::Episode3 => 23,
            PicType::Episode4 => 24,
            PicType::Episode5 => 25,
            PicType::Episode6 => 26,
            PicType::FloorEndGuy => 27,
            PicType::FloorEndColon => 28,
            PicType::FloorEndNum0 => 29,
            PicType::FloorEndNum1 => 30,
            PicType::FloorEndNum2 => 31,
            PicType::FloorEndNum3 => 32,
            PicType::FloorEndNum4 => 33,
            PicType::FloorEndNum5 => 34,
            PicType::FloorEndNum6 => 35,
            PicType::FloorEndNum7 => 36,
            PicType::FloorEndNum8 => 37,
            PicType::FloorEndNum9 => 38,
            PicType::FloorEndPercent => 39,
            PicType::FloorEndLetterA => 40,
            PicType::FloorEndLetterB => 41,
            PicType::FloorEndLetterC => 42,
            PicType::FloorEndLetterD => 43,
            PicType::FloorEndLetterE => 44,
            PicType::FloorEndLetterF => 45,
            PicType::FloorEndLetterG => 46,
            PicType::FloorEndLetterH => 47,
            PicType::FloorEndLetterI => 48,
            PicType::FloorEndLetterJ => 49,
            PicType::FloorEndLetterK => 50,
            PicType::FloorEndLetterL => 51,
            PicType::FloorEndLetterM => 52,
            PicType::FloorEndLetterN => 53,
            PicType::FloorEndLetterO => 54,
            PicType::FloorEndLetterP => 55,
            PicType::FloorEndLetterQ => 56,
            PicType::FloorEndLetterR => 57,
            PicType::FloorEndLetterS => 58,
            PicType::FloorEndLetterT => 59,
            PicType::FloorEndLetterU => 60,
            PicType::FloorEndLetterV => 61,
            PicType::FloorEndLetterW => 62,
            PicType::FloorEndLetterX => 63,
            PicType::FloorEndLetterY => 64,
            PicType::FloorEndLetterZ => 65,
            PicType::FloorEndExclamation => 66,
            PicType::FloorEndApostrophe => 67,
            PicType::FloorEndGuy2 => 68,
            PicType::FloorEndWinnerBJ => 69,
            PicType::StatusBar => 70,
            PicType::TitleScreen => 71,
            PicType::Pg13Pic => 72,
            PicType::CreditsScreen => 73,
            PicType::HighScoresTitle => 74,
            PicType::StatusKnife => 75,
            PicType::StatusPistol => 76,
            PicType::StatusMachineGun => 77,
            PicType::StatusChainGun => 78,
            PicType::StatusNoKey => 79,
            PicType::StatusGoldKey => 80,
            PicType::StatusSilverKey => 81,
            PicType::StatusNumBlank => 82,
            PicType::StatusNum0 => 83,
            PicType::StatusNum1 => 84,
            PicType::StatusNum2 => 85,
            PicType::StatusNum3 => 86,
            PicType::StatusNum4 => 87,
            PicType::StatusNum5 => 88,
            PicType::StatusNum6 => 89,
            PicType::StatusNum7 => 90,
            PicType::StatusNum8 => 91,
            PicType::StatusNum9 => 92,
            PicType::StatusFace1A => 93,
            PicType::StatusFace1B => 94,
            PicType::StatusFace1C => 95,
            PicType::StatusFace2A => 96,
            PicType::StatusFace2B => 97,
            PicType::StatusFace2C => 98,
            PicType::StatusFace3A => 99,
            PicType::StatusFace3B => 100,
            PicType::StatusFace3C => 101,
            PicType::StatusFace4A => 102,
            PicType::StatusFace4B => 103,
            PicType::StatusFace4C => 104,
            PicType::StatusFace5A => 105,
            PicType::StatusFace5B => 106,
            PicType::StatusFace5C => 107,
            PicType::StatusFace6A => 108,
            PicType::StatusFace6B => 109,
            PicType::StatusFace6C => 110,
            PicType::StatusFace7A => 111,
            PicType::StatusFace7B => 112,
            PicType::StatusFace7C => 113,
            PicType::StatusFaceDead => 114,
            PicType::StatusFaceGatling => 115,
            PicType::StatusFaceGod1 => 116,
            PicType::StatusFaceGod2 => 117,
            PicType::StatusFaceGod3 => 118,
            PicType::Paused => 119,
            PicType::GetPsyched => 120,
        }
    }
}

/// The four numberings of the PICs: Wolfenstein 3D shareware, Wolfenstein
/// 3D (both registered versions), Spear of Destiny demo, Spear of Destiny.
pub open spec fn kind_of(ext: Seq<char>) -> u8 {
    if ext == "WL1"@ {
        0
    } else if ext == "WL3"@ || ext == "WL6"@ {
        1
    } else if ext == "SDM"@ {
        2
    } else {
        3
    }
}

/// Whether two texts are the same.
pub fn same_text(a: &str, b: &str) -> (r: bool)
    ensures
        r == (a@ == b@),
{
    let n = a.unicode_len();
    if n != b.unicode_len() {
        return false;
    }
    let mut i: usize = 0;
    while i < n
        invariant
            n == a@.len(),
            n == b@.len(),
            0 <= i <= n,
            forall|k: int| 0 <= k < i ==> a@[k] == b@[k],
        decreases n - i,
    {
        if a.get_char(i) != b.get_char(i) {
            return false;
        }
        i += 1;
    }
    assert(a@ =~= b@);
    true
}

fn kind_of_exec(ext: &str) -> (r: u8)
    ensures
        r == kind_of(ext@),
{
    if same_text(ext, "WL1") {
        0
    } else if same_text(ext, "WL3") || same_text(ext, "WL6") {
        1
    } else if same_text(ext, "SDM") {
        2
    } else {
        3
    }
}

pub open spec fn spec_translate_wolf1(i: usize) -> usize {
    if OPTION_TITLE <= i <= EPISODE_6 {
        (i + 18) as usize
    } else if FLOOR_END_GUY <= i <= STATUS_GOD1 {
        (i + 52 - FLOOR_END_GUY) as usize
    } else if i == PAUSED {
        142
    } else if i == GET_PSYCHED {
        143
    } else {
        BAD_IDX
    }
}

/// File position of dictionary pic `i` in Wolfenstein 3D shareware.
pub fn translate_wolf1(i: usize) -> (r: usize)
    ensures
        r == spec_translate_wolf1(i),
{
    if OPTION_TITLE <= i && i <= EPISODE_6 {
        i + 18
    } else if FLOOR_END_GUY <= i && i <= STATUS_GOD1 {
        i + 52 - FLOOR_END_GUY
    } else if i == PAUSED {
        142
    } else if i == GET_PSYCHED {
        143
    } else {
        BAD_IDX
    }
}

pub open spec fn spec_translate_wolf3or6(i: usize) -> usize {
    if OPTION_TITLE <= i <= EPISODE_6 {
        (i + 6) as usize
    } else if FLOOR_END_GUY <= i <= STATUS_GOD1 {
        (i + 40 - FLOOR_END_GUY) as usize
    } else if i == PAUSED {
        130
    } else if i == GET_PSYCHED {
        131
    } else {
        BAD_IDX
    }
}

/// File position of dictionary pic `i` in registered Wolfenstein 3D.
pub fn translate_wolf3or6(i: usize) -> (r: usize)
    ensures
        r == spec_translate_wolf3or6(i),
{
    if OPTION_TITLE <= i && i <= EPISODE_6 {
        i + 6
    } else if FLOOR_END_GUY <= i && i <= STATUS_GOD1 {
        i + 40 - FLOOR_END_GUY
    } else if i == PAUSED {
        130
    } else if i == GET_PSYCHED {
        131
    } else {
        BAD_IDX
    }
}

pub open spec fn spec_translate_spear_common(i: usize) -> usize {
    if i == BACK_DROP {
        0
    } else if i == HIGH_SCORES {
        26
    } else if OPTION_TITLE <= i <= SAVE_TITLE {
        (i + 1) as usize
    } else {
        BAD_IDX
    }
}

/// File position of the dictionary pics that both Spear of Destiny versions number alike.
pub fn translate_spear_common(i: usize) -> (r: usize)
    ensures
        r == spec_translate_spear_common(i),
{
    if i == BACK_DROP {
        0
    } else if i == HIGH_SCORES {
        26
    } else if OPTION_TITLE <= i && i <= SAVE_TITLE {
        i + 1
    } else {
        BAD_IDX
    }
}

pub open spec fn spec_translate_sdm(i: usize) -> usize {
    if FLOOR_END_GUY <= i <= FLOOR_END_WINNER {
        (i + 28 - FLOOR_END_GUY) as usize
    } else if i == STATUS_BAR {
        73
    } else if i == TITLE_SCREEN {
        71
    } else if i == PG13_PIC {
        74
    } else if i == CREDITS_SCREEN {
        75
    } else if STATUS_KNIFE <= i <= STATUS_GOD3 {
        (i + 76 - STATUS_KNIFE) as usize
    } else if i == PAUSED {
        123
    } else if i == GET_PSYCHED {
        124
    } else {
        spec_translate_spear_common(i)
    }
}

/// File position of dictionary pic `i` in the Spear of Destiny demo.
pub fn translate_sdm(i: usize) -> (r: usize)
    ensures
        r == spec_translate_sdm(i),
{
    if FLOOR_END_GUY <= i && i <= FLOOR_END_WINNER {
        i + 28 - FLOOR_END_GUY
    } else if i == STATUS_BAR {
        73
    } else if i == TITLE_SCREEN {
        71
    } else if i == PG13_PIC {
        74
    } else if i == CREDITS_SCREEN {
        75
    } else if STATUS_KNIFE <= i && i <= STATUS_GOD3 {
        i + 76 - STATUS_KNIFE
    } else if i == PAUSED {
        123
    } else if i == GET_PSYCHED {
        124
    } else {
        translate_spear_common(i)
    }
}

pub open spec fn spec_translate_sod(i: usize) -> usize {
    if FLOOR_END_GUY <= i <= FLOOR_END_WINNER {
        (i + 33 - FLOOR_END_GUY) as usize
    } else if i == STATUS_BAR {
        87
    } else if i == TITLE_SCREEN {
        79
    } else if i == PG13_PIC {
        88
    } else if i == CREDITS_SCREEN {
        89
    } else if STATUS_KNIFE <= i <= STATUS_GOD3 {
        (i + 98 - STATUS_KNIFE) as usize
    } else if i == PAUSED {
        145
    } else if i == GET_PSYCHED {
        146
    } else {
        spec_translate_spear_common(i)
    }
}

/// File position of dictionary pic `i` in Spear of Destiny.
pub fn translate_sod(i: usize) -> (r: usize)
    ensures
        r == spec_translate_sod(i),
{
    if FLOOR_END_GUY <= i && i <= FLOOR_END_WINNER {
        i + 33 - FLOOR_END_GUY
    } else if i == STATUS_BAR {
        87
    } else if i == TITLE_SCREEN {
        79
    } else if i == PG13_PIC {
        88
    } else if i == CREDITS_SCREEN {
        89
    } else if STATUS_KNIFE <= i && i <= STATUS_GOD3 {
        i + 98 - STATUS_KNIFE
    } else if i == PAUSED {
        145
    } else if i == GET_PSYCHED {
        146
    } else {
        translate_spear_common(i)
    }
}

pub open spec fn spec_translate(kind: u8, i: usize) -> usize {
    if kind == 0 {
        spec_translate_wolf1(i)
    } else if kind == 1 {
        spec_translate_wolf3or6(i)
    } else if kind == 2 {
        spec_translate_sdm(i)
    } else {
        spec_translate_sod(i)
    }
}

/// What a picture holds: its size and its texels.
pub open spec fn pic_view(g: GfxData) -> (u16, u16, Seq<u8>) {
    (g.width, g.height, g.texels@)
}

pub open spec fn empty_pic() -> (u16, u16, Seq<u8>) {
    (0, 0, Seq::empty())
}

/// The dictionary pic `o` taken straight from the file's pics.
pub open spec fn mapped_pic(kind: u8, input: Seq<GfxData>, o: usize) -> (u16, u16, Seq<u8>) {
    let i = spec_translate(kind, o);
    if i < input.len() {
        pic_view(input[i as int])
    } else {
        empty_pic()
    }
}

/// Dictionary pic `o` for a game with extension `ext`; the Wolfenstein 3D
/// games lack the last two god-mode faces and the backdrop, which are
/// filled with the first god-mode face and the title screen.
pub open spec fn ordered_pic(ext: Seq<char>, input: Seq<GfxData>, o: usize) -> (u16, u16, Seq<u8>) {
    let kind = kind_of(ext);
    if ext.len() > 0 && ext[0] == 'W' && (o == STATUS_GOD2 || o == STATUS_GOD3) {
        mapped_pic(kind, input, STATUS_GOD1)
    } else if ext.len() > 0 && ext[0] == 'W' && o == BACK_DROP {
        mapped_pic(kind, input, TITLE_SCREEN)
    } else {
        mapped_pic(kind, input, o)
    }
}

/// The file's pics put in dictionary order.
pub fn into_ordered_pics_vec(game_ext: &str, input: Vec<GfxData>) -> (r: Vec<GfxData>)
    requires
        forall|i: int| 0 <= i < input@.len() ==> (#[trigger] input@[i]).wf(),
    ensures
        r@.len() == TOTAL_PICS,
        forall|o: int| 0 <= o < TOTAL_PICS ==> pic_view(#[trigger] r@[o]) == ordered_pic(game_ext@, input@, o as usize),
        forall|o: int| 0 <= o < TOTAL_PICS ==> (#[trigger] r@[o]).wf(),
{
    let kind = kind_of_exec(game_ext);
    let is_wolf = game_ext.unicode_len() > 0 && game_ext.get_char(0) == 'W';
    let mut mapped: Vec<GfxData> = Vec::new();
    let mut o: usize = 0;
    while o < TOTAL_PICS
        invariant
            kind == kind_of(game_ext@),
            forall|i: int| 0 <= i < input@.len() ==> (#[trigger] input@[i]).wf(),
            is_wolf == (game_ext@.len() > 0 && game_ext@[0] == 'W'),
            0 <= o <= TOTAL_PICS,
            mapped@.len() == o,
            forall|k: int| 0 <= k < o ==> pic_view(#[trigger] mapped@[k]) == ordered_pic(game_ext@, input@, k as usize),
            forall|k: int| 0 <= k < o ==> (#[trigger] mapped@[k]).wf(),
        decreases TOTAL_PICS - o,
    {
        let src = if is_wolf && (o == STATUS_GOD2 || o == STATUS_GOD3) {
            STATUS_GOD1
        } else if is_wolf && o == BACK_DROP {
            TITLE_SCREEN
        } else {
            o
        };
        let i = if kind == 0 {
            translate_wolf1(src)
        } else if kind == 1 {
            translate_wolf3or6(src)
        } else if kind == 2 {
            translate_sdm(src)
        } else {
            translate_sod(src)
        };
        if i < input.len() {
            mapped.push(copy_pic(&input[i]));
        } else {
            mapped.push(GfxData::new_empty());
        }
        o += 1;
    }
    mapped
}

/// The PICs of the game, in `PicType` order.
pub struct PicDict {
    pub pics: Vec<GfxData>,
}

impl PicDict {
    /// Orders the pics read from the files of the game with extension `game_ext`.
    pub fn new(game_ext: &str, input: Vec<GfxData>) -> (r: Self)
        requires
            forall|i: int| 0 <= i < input@.len() ==> (#[trigger] input@[i]).wf(),
        ensures
            r.pics@.len() == TOTAL_PICS,
            forall|o: int| 0 <= o < TOTAL_PICS ==> pic_view(#[trigger] r.pics@[o]) == ordered_pic(game_ext@, input@, o as usize),
    {
        PicDict { pics: into_ordered_pics_vec(game_ext, input) }
    }

    /// The pic `delta_idx` places after `typ` (a frame of an animation, a digit).
    pub fn pic(&self, typ: PicType, delta_idx: usize) -> (r: &GfxData)
        requires
            typ.spec_index() + delta_idx < self.pics@.len(),
        ensures
            *r == self.pics@[typ.spec_index() + delta_idx],
    {
        let n = self.pics.len();
        let base = typ.index();
        assert(base + delta_idx < n);
        &self.pics[base + delta_idx]
    }

    pub fn pic_by_index(&self, idx: usize) -> (r: &GfxData)
        requires
            idx < self.pics@.len(),
        ensures
            *r == self.pics@[idx as int],
    {
        &self.pics[idx]
    }

    pub fn pic_count() -> (r: usize)
        ensures
            r == TOTAL_PICS,
    {
        TOTAL_PICS
    }
}

} // verus!
