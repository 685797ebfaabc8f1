use crate::Error;
use vstd::prelude::*;
use vstd::std_specs::convert::TryFromSpec;

verus! {

/// Cause of transmission: the six-bit code that says why a telegram was sent.
#[allow(non_camel_case_types)]
#[derive(Debug, Copy, Clone, Eq, PartialEq, Structural)]
pub enum COT {
    /// Unused (0)
    Unused,
    /// Cyclic (1)
    Cyclic,
    /// Background (2)
    Background,
    /// Spontaneous (3)
    Spontan,
    /// Initiated (4)
    Init,
    /// Request (5)
    Req,
    /// Activation (6)
    Act,
    /// Activation confirmation (7)
    ActCon,
    /// Deactivation (8)
    Deact,
    /// Deactivation confirmation (9)
    DeactCon,
    /// Activation termination (10)
    ActTerm,
    /// Return remote (11)
    RetRem,
    /// Return local (12)
    RetLoc,
    /// File transfer (13)
    File,
    /// Reserved (14)
    COT14,
    /// Reserved (15)
    COT15,
    /// Reserved (16)
    COT16,
    /// Reserved (17)
    COT17,
    /// Reserved (18)
    COT18,
    /// Reserved (19)
    COT19,
    /// Interrogation (20)
    Inrogen,
    /// Interrogation (21)
    Inro1,
    /// Interrogation (22)
    Inro2,
    /// Interrogation (23)
    Inro3,
    /// Interrogation (24)
    Inro4,
    /// Interrogation (25)
    Inro5,
    /// Interrogation (26)
    Inro6,
    /// Interrogation (27)
    Inro7,
    /// Interrogation (28)
    Inro8,
    /// Interrogation (29)
    Inro9,
    /// Interrogation (30)
    Inro10,
    /// Interrogation (31)
    Inro11,
    /// Interrogation (32)
    Inro12,
    /// Interrogation (33)
    Inro13,
    /// Interrogation (34)
    Inro14,
    /// Interrogation (35)
    Inro15,
    /// Interrogation (36)
    Inro16,
    /// Request for counter interrogation (37)
    ReqCoGen,
    /// Request for counter interrogation (38)
    ReqCo1,
    /// Request for counter interrogation (39)
    ReqCo2,
    /// Request for counter interrogation (40)
    ReqCo3,
    /// Request for counter interrogation (41)
    ReqCo4,
    /// Reserved (42)
    COT42,
    /// Reserved (43)
    COT43,
    /// Unknown type error (44)
    UnknownType,
    /// Unknown cause error (45)
    UnknownCause,
    /// Unknown ASDU address error (46)
    UnknownAsduAddress,
    /// Unknown object address error (47)
    UnknownObjectAddress,
    /// Reserved (48)
    COT48,
    /// Reserved (49)
    COT49,
    /// Reserved (50)
    COT50,
    /// Reserved (51)
    COT51,
    /// Reserved (52)
    COT52,
    /// Reserved (53)
    COT53,
    /// Reserved (54)
    COT54,
    /// Reserved (55)
    COT55,
    /// Reserved (56)
    COT56,
    /// Reserved (57)
    COT57,
    /// Reserved (58)
    COT58,
    /// Reserved (59)
    COT59,
    /// Reserved (60)
    COT60,
    /// Reserved (61)
    COT61,
    /// Reserved (62)
    COT62,
    /// Reserved (63)
    COT63,
}

impl COT {
    /// The wire code of each cause.
    pub open spec fn spec_code(self) -> u8 {
        match self {
            COT::Unused => 0,
            COT::Cyclic => 1,
            COT::Background => 2,
            COT::Spontan => 3,
            COT::Init => 4,
            COT::Req => 5,
            COT::Act => 6,
            COT::ActCon => 7,
            COT::Deact => 8,
            COT::DeactCon => 9,
            COT::ActTerm => 10,
            COT::RetRem => 11,
            COT::RetLoc => 12,
            COT::File => 13,
            COT::COT14 => 14,
            COT::COT15 => 15,
            COT::COT16 => 16,
            COT::COT17 => 17,
            COT::COT18 => 18,
            COT::COT19 => 19,
            COT::Inrogen => 20,
            COT::Inro1 => 21,
            COT::Inro2 => 22,
            COT::Inro3 => 23,
            COT::Inro4 => 24,
            COT::Inro5 => 25,
            COT::Inro6 => 26,
            COT::Inro7 => 27,
            COT::Inro8 => 28,
            COT::Inro9 => 29,
            COT::Inro10 => 30,
            COT::Inro11 => 31,
            COT::Inro12 => 32,
            COT::Inro13 => 33,
            COT::Inro14 => 34,
            COT::Inro15 => 35,
            COT::Inro16 => 36,
            COT::ReqCoGen => 37,
            COT::ReqCo1 => 38,
            COT::ReqCo2 => 39,
            COT::ReqCo3 => 40,
            COT::ReqCo4 => 41,
            COT::COT42 => 42,
            COT::COT43 => 43,
            COT::UnknownType => 44,
            COT::UnknownCause => 45,
            COT::UnknownAsduAddress => 46,
            COT::UnknownObjectAddress => 47,
            COT::COT48 => 48,
            COT::COT49 => 49,
            COT::COT50 => 50,
            COT::COT51 => 51,
            COT::COT52 => 52,
            COT::COT53 => 53,
            COT::COT54 => 54,
            COT::COT55 => 55,
            COT::COT56 => 56,
            COT::COT57 => 57,
            COT::COT58 => 58,
            COT::COT59 => 59,
            COT::COT60 => 60,
            COT::COT61 => 61,
            COT::COT62 => 62,
            COT::COT63 => 63,
        }
    }

    /// The six-bit wire code of this cause.
    pub fn code(self) -> (r: u8)
        ensures
            r == self.spec_code(),
            r < 64,
    {
        match self {
            COT::Unused => 0,
            COT::Cyclic => 1,
            COT::Background => 2,
            COT::Spontan => 3,
            COT::Init => 4,
            COT::Req => 5,
            COT::Act => 6,
            COT::ActCon => 7,
            COT::Deact => 8,
            COT::DeactCon => 9,
            COT::ActTerm => 10,
            COT::RetRem => 11,
            COT::RetLoc => 12,
            COT::File => 13,
            COT::COT14 => 14,
            COT::COT15 => 15,
            COT::COT16 => 16,
            COT::COT17 => 17,
            COT::COT18 => 18,
            COT::COT19 => 19,
            COT::Inrogen => 20,
            COT::Inro1 => 21,
            COT::Inro2 => 22,
            COT::Inro3 => 23,
            COT::Inro4 => 24,
            COT::Inro5 => 25,
            COT::Inro6 => 26,
            COT::Inro7 => 27,
            COT::Inro8 => 28,
            COT::Inro9 => 29,
            COT::Inro10 => 30,
            COT::Inro11 => 31,
            COT::Inro12 => 32,
            COT::Inro13 => 33,
            COT::Inro14 => 34,
            COT::Inro15 => 35,
            COT::Inro16 => 36,
            COT::ReqCoGen => 37,
            COT::ReqCo1 => 38,
            COT::ReqCo2 => 39,
            COT::ReqCo3 => 40,
            COT::ReqCo4 => 41,
            COT::COT42 => 42,
            COT::COT43 => 43,
            COT::UnknownType => 44,
            COT::UnknownCause => 45,
            COT::UnknownAsduAddress => 46,
            COT::UnknownObjectAddress => 47,
            COT::COT48 => 48,
            COT::COT49 => 49,
            COT::COT50 => 50,
            COT::COT51 => 51,
            COT::COT52 => 52,
            COT::COT53 => 53,
            COT::COT54 => 54,
            COT::COT55 => 55,
            COT::COT56 => 56,
            COT::COT57 => 57,
            COT::COT58 => 58,
            COT::COT59 => 59,
            COT::COT60 => 60,
            COT::COT61 => 61,
            COT::COT62 => 62,
            COT::COT63 => 63,
        }
    }

    /// Every cause has a code below 64, and the code names the cause: decoding the code of a
    /// cause gives that cause back.
    pub proof fn lemma_code_round_trip(self)
        ensures
            self.spec_code() < 64,
            COT::try_from_spec(self.spec_code()) == Ok::<COT, Error>(self),
    {
    }

    /// A byte decodes to a cause exactly when it is below 64, and the cause then carries that
    /// byte as its code; any other byte is refused with the byte attached.
    pub proof fn lemma_try_from_total(value: u8)
        ensures
            value < 64 ==> COT::try_from_spec(value) is Ok && COT::try_from_spec(
                value,
            )->Ok_0.spec_code() == value,
            value >= 64 ==> COT::try_from_spec(value) == Err::<COT, Error>(Error::COT(value)),
    {
    }
}

impl TryFrom<u8> for COT {
    type Error = Error;

    fn try_from(value: u8) -> (r: Result<Self, Error>) {
        match value {
            0 => Ok(COT::Unused),
            1 => Ok(COT::Cyclic),
            2 => Ok(COT::Background),
            3 => Ok(COT::Spontan),
            4 => Ok(COT::Init),
            5 => Ok(COT::Req),
            6 => Ok(COT::Act),
            7 => Ok(COT::ActCon),
            8 => Ok(COT::Deact),
            9 => Ok(COT::DeactCon),
            10 => Ok(COT::ActTerm),
            11 => Ok(COT::RetRem),
            12 => Ok(COT::RetLoc),
            13 => Ok(COT::File),
            14 => Ok(COT::COT14),
            15 => Ok(COT::COT15),
            16 => Ok(COT::COT16),
            17 => Ok(COT::COT17),
            18 => Ok(COT::COT18),
            19 => Ok(COT::COT19),
            20 => Ok(COT::Inrogen),
            21 => Ok(COT::Inro1),
            22 => Ok(COT::Inro2),
            23 => Ok(COT::Inro3),
            24 => Ok(COT::Inro4),
            25 => Ok(COT::Inro5),
            26 => Ok(COT::Inro6),
            27 => Ok(COT::Inro7),
            28 => Ok(COT::Inro8),
            29 => Ok(COT::Inro9),
            30 => Ok(COT::Inro10),
            31 => Ok(COT::Inro11),
            32 => Ok(COT::Inro12),
            33 => Ok(COT::Inro13),
            34 => Ok(COT::Inro14),
            35 => Ok(COT::Inro15),
            36 => Ok(COT::Inro16),
            37 => Ok(COT::ReqCoGen),
            38 => Ok(COT::ReqCo1),
            39 => Ok(COT::ReqCo2),
            40 => Ok(COT::ReqCo3),
            41 => Ok(COT::ReqCo4),
            42 => Ok(COT::COT42),
            43 => Ok(COT::COT43),
            44 => Ok(COT::UnknownType),
            45 => Ok(COT::UnknownCause),
            46 => Ok(COT::UnknownAsduAddress),
            47 => Ok(COT::UnknownObjectAddress),
            48 => Ok(COT::COT48),
            49 => Ok(COT::COT49),
            50 => Ok(COT::COT50),
            51 => Ok(COT::COT51),
            52 => Ok(COT::COT52),
            53 => Ok(COT::COT53),
            54 => Ok(COT::COT54),
            55 => Ok(COT::COT55),
            56 => Ok(COT::COT56),
            57 => Ok(COT::COT57),
            58 => Ok(COT::COT58),
            59 => Ok(COT::COT59),
            60 => Ok(COT::COT60),
            61 => Ok(COT::COT61),
            62 => Ok(COT::COT62),
            63 => Ok(COT::COT63),
            v => Err(Error::COT(v)),
        }
    }
}

impl vstd::std_specs::convert::TryFromSpecImpl<u8> for COT {
    open spec fn obeys_try_from_spec() -> bool {
        true
    }

    open spec fn try_from_spec(value: u8) -> Result<Self, Error> {
        match value {
            0 => Ok(COT::Unused),
            1 => Ok(COT::Cyclic),
            2 => Ok(COT::Background),
            3 => Ok(COT::Spontan),
            4 => Ok(COT::Init),
            5 => Ok(COT::Req),
            6 => Ok(COT::Act),
            7 => Ok(COT::ActCon),
            8 => Ok(COT::Deact),
            9 => Ok(COT::DeactCon),
            10 => Ok(COT::ActTerm),
            11 => Ok(COT::RetRem),
            12 => Ok(COT::RetLoc),
            13 => Ok(COT::File),
            14 => Ok(COT::COT14),
            15 => Ok(COT::COT15),
            16 => Ok(COT::COT16),
            17 => Ok(COT::COT17),
            18 => Ok(COT::COT18),
            19 => Ok(COT::COT19),
            20 => Ok(COT::Inrogen),
            21 => Ok(COT::Inro1),
            22 => Ok(COT::Inro2),
            23 => Ok(COT::Inro3),
            24 => Ok(COT::Inro4),
            25 => Ok(COT::Inro5),
            26 => Ok(COT::Inro6),
            27 => Ok(COT::Inro7),
            28 => Ok(COT::Inro8),
            29 => Ok(COT::Inro9),
            30 => Ok(COT::Inro10),
            31 => Ok(COT::Inro11),
            32 => Ok(COT::Inro12),
            33 => Ok(COT::Inro13),
            34 => Ok(COT::Inro14),
            35 => Ok(COT::Inro15),
            36 => Ok(COT::Inro16),
            37 => Ok(COT::ReqCoGen),
            38 => Ok(COT::ReqCo1),
            39 => Ok(COT::ReqCo2),
            40 => Ok(COT::ReqCo3),
            41 => Ok(COT::ReqCo4),
            42 => Ok(COT::COT42),
            43 => Ok(COT::COT43),
            44 => Ok(COT::UnknownType),
            45 => Ok(COT::UnknownCause),
            46 => Ok(COT::UnknownAsduAddress),
            47 => Ok(COT::UnknownObjectAddress),
            48 => Ok(COT::COT48),
            49 => Ok(COT::COT49),
            50 => Ok(COT::COT50),
            51 => Ok(COT::COT51),
            52 => Ok(COT::COT52),
            53 => Ok(COT::COT53),
            54 => Ok(COT::COT54),
            55 => Ok(COT::COT55),
            56 => Ok(COT::COT56),
            57 => Ok(COT::COT57),
            58 => Ok(COT::COT58),
            59 => Ok(COT::COT59),
            60 => Ok(COT::COT60),
            61 => Ok(COT::COT61),
            62 => Ok(COT::COT62),
            63 => Ok(COT::COT63),
            v => Err(Error::COT(v)),
        }
    }
}

} // verus!
