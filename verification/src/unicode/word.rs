//! The code points that can be part of a word.

use crate::ranges::{ascending, each_before_next, each_nonempty};
use vstd::prelude::*;

verus! {

/// The code points that can be part of a word: those with the property
/// `ID_Continue`, `Alphabetic` or `ID_Compat_Math_Continue`, the numbers
/// (`Nd`, `Nl`, `No`), the unassigned and private-use code points, and U+05F3,
/// U+05F4 and U+0F0B; without the punctuation of the categories `Pc`, `Pd`,
/// `Ps`, `Pe`, `Pi` and `Pf`, and without the surrogates.
pub const ALLOWED_IN_WORD: [(u32, u32); 354] = [
    (0x0030, 0x0039), (0x0041, 0x005A), (0x0061, 0x007A), (0x00AA, 0x00AA),
    (0x00B2, 0x00B3), (0x00B5, 0x00B5), (0x00B7, 0x00B7), (0x00B9, 0x00BA),
    (0x00BC, 0x00BE), (0x00C0, 0x00D6), (0x00D8, 0x00F6), (0x00F8, 0x02C1),
    (0x02C6, 0x02D1), (0x02E0, 0x02E4), (0x02EC, 0x02EC), (0x02EE, 0x02EE),
    (0x0300, 0x0374), (0x0376, 0x037D), (0x037F, 0x0383), (0x0386, 0x03F5),
    (0x03F7, 0x0481), (0x0483, 0x0487), (0x048A, 0x0559), (0x0560, 0x0588),
    (0x058B, 0x058C), (0x0590, 0x05BD), (0x05BF, 0x05BF), (0x05C1, 0x05C2),
    (0x05C4, 0x05C5), (0x05C7, 0x05FF), (0x0610, 0x061A), (0x0620, 0x0669),
    (0x066E, 0x06D3), (0x06D5, 0x06DC), (0x06DF, 0x06E8), (0x06EA, 0x06FC),
    (0x06FF, 0x06FF), (0x070E, 0x070E), (0x0710, 0x07F5), (0x07FA, 0x07FD),
    (0x0800, 0x082F), (0x083F, 0x085D), (0x085F, 0x0887), (0x0889, 0x088F),
    (0x0892, 0x08E1), (0x08E3, 0x0963), (0x0966, 0x096F), (0x0971, 0x09F1),
    (0x09F4, 0x09F9), (0x09FC, 0x09FC), (0x09FE, 0x0A75), (0x0A77, 0x0AEF),
    (0x0AF2, 0x0B6F), (0x0B71, 0x0BF2), (0x0BFB, 0x0C76), (0x0C78, 0x0C7E),
    (0x0C80, 0x0C83), (0x0C85, 0x0D4E), (0x0D50, 0x0D78), (0x0D7A, 0x0DF3),
    (0x0DF5, 0x0E3E), (0x0E40, 0x0E4E), (0x0E50, 0x0E59), (0x0E5C, 0x0F00),
    (0x0F0B, 0x0F0B), (0x0F18, 0x0F19), (0x0F20, 0x0F33), (0x0F35, 0x0F35),
    (0x0F37, 0x0F37), (0x0F39, 0x0F39), (0x0F3E, 0x0F84), (0x0F86, 0x0FBD),
    (0x0FC6, 0x0FC6), (0x0FCD, 0x0FCD), (0x0FDB, 0x1049), (0x1050, 0x109D),
    (0x10A0, 0x10FA), (0x10FC, 0x135F), (0x1369, 0x138F), (0x139A, 0x13FF),
    (0x1401, 0x166C), (0x166F, 0x167F), (0x1681, 0x169A), (0x169D, 0x16EA),
    (0x16EE, 0x1734), (0x1737, 0x17D3), (0x17D7, 0x17D7), (0x17DC, 0x17FF),
    (0x180B, 0x180D), (0x180F, 0x193F), (0x1941, 0x1943), (0x1946, 0x19DD),
    (0x1A00, 0x1A1D), (0x1A20, 0x1A9F), (0x1AA7, 0x1AA7), (0x1AAE, 0x1ABD),
    (0x1ABF, 0x1B4D), (0x1B50, 0x1B59), (0x1B6B, 0x1B73), (0x1B80, 0x1BFB),
    (0x1C00, 0x1C3A), (0x1C40, 0x1C7D), (0x1C80, 0x1CBF), (0x1CC8, 0x1CD2),
    (0x1CD4, 0x1FBC), (0x1FBE, 0x1FBE), (0x1FC2, 0x1FCC), (0x1FD0, 0x1FDC),
    (0x1FE0, 0x1FEC), (0x1FF0, 0x1FFC), (0x1FFF, 0x1FFF), (0x200C, 0x200D),
    (0x2065, 0x2065), (0x2070, 0x207C), (0x207F, 0x208C), (0x208F, 0x209F),
    (0x20C1, 0x20DC), (0x20E1, 0x20E1), (0x20E5, 0x20FF), (0x2102, 0x2102),
    (0x2107, 0x2107), (0x210A, 0x2113), (0x2115, 0x2115), (0x2118, 0x211D),
    (0x2124, 0x2124), (0x2126, 0x2126), (0x2128, 0x2128), (0x212A, 0x2139),
    (0x213C, 0x213F), (0x2145, 0x2149), (0x214E, 0x214E), (0x2150, 0x2189),
    (0x218C, 0x218F), (0x2202, 0x2202), (0x2207, 0x2207), (0x221E, 0x221E),
    (0x242A, 0x243F), (0x244B, 0x249B), (0x24B6, 0x24FF), (0x2776, 0x2793),
    (0x2B74, 0x2B75), (0x2B96, 0x2B96), (0x2C00, 0x2CE4), (0x2CEB, 0x2CF8),
    (0x2CFD, 0x2CFD), (0x2D00, 0x2D6F), (0x2D71, 0x2DFF), (0x2E2F, 0x2E2F),
    (0x2E5E, 0x2E7F), (0x2E9A, 0x2E9A), (0x2EF4, 0x2EFF), (0x2FD6, 0x2FEF),
    (0x3005, 0x3007), (0x3021, 0x302F), (0x3031, 0x3035), (0x3038, 0x303C),
    (0x3040, 0x309F), (0x30A1, 0x318F), (0x3192, 0x3195), (0x31A0, 0x31BF),
    (0x31E6, 0x31EE), (0x31F0, 0x31FF), (0x321F, 0x3229), (0x3248, 0x324F),
    (0x3251, 0x325F), (0x3280, 0x3289), (0x32B1, 0x32BF), (0x3400, 0x4DBF),
    (0x4E00, 0xA48F), (0xA4C7, 0xA4FD), (0xA500, 0xA60C), (0xA610, 0xA66F),
    (0xA674, 0xA67D), (0xA67F, 0xA6F1), (0xA6F8, 0xA6FF), (0xA717, 0xA71F),
    (0xA722, 0xA788), (0xA78B, 0xA827), (0xA82C, 0xA835), (0xA83A, 0xA873),
    (0xA878, 0xA8CD), (0xA8D0, 0xA8F7), (0xA8FB, 0xA8FB), (0xA8FD, 0xA92D),
    (0xA930, 0xA95E), (0xA960, 0xA9C0), (0xA9CE, 0xA9DD), (0xA9E0, 0xAA5B),
    (0xAA60, 0xAA76), (0xAA7A, 0xAADD), (0xAAE0, 0xAAEF), (0xAAF2, 0xAB5A),
    (0xAB5C, 0xAB69), (0xAB6C, 0xABEA), (0xABEC, 0xD7FF), (0xE000, 0xFB28),
    (0xFB2A, 0xFBB1), (0xFBC3, 0xFD3D), (0xFD50, 0xFDCE), (0xFDD0, 0xFDFB),
    (0xFE00, 0xFE0F), (0xFE1A, 0xFE2F), (0xFE53, 0xFE53), (0xFE67, 0xFE67),
    (0xFE6C, 0xFEFE), (0xFF00, 0xFF00), (0xFF10, 0xFF19), (0xFF21, 0xFF3A),
    (0xFF41, 0xFF5A), (0xFF65, 0xFFDF), (0xFFE7, 0xFFE7), (0xFFEF, 0xFFF8),
    (0xFFFE, 0x100FF), (0x10103, 0x10136), (0x10140, 0x10178), (0x1018A, 0x1018B),
    (0x1018F, 0x1018F), (0x1019D, 0x1019F), (0x101A1, 0x101CF), (0x101FD, 0x1039E),
    (0x103A0, 0x103CF), (0x103D1, 0x1056E), (0x10570, 0x10856), (0x10858, 0x10876),
    (0x10879, 0x1091E), (0x10920, 0x1093E), (0x10940, 0x10A4F), (0x10A59, 0x10A7E),
    (0x10A80, 0x10AC7), (0x10AC9, 0x10AEF), (0x10AF7, 0x10B38), (0x10B40, 0x10B98),
    (0x10B9D, 0x10D6D), (0x10D6F, 0x10D8D), (0x10D90, 0x10EAC), (0x10EAE, 0x10F54),
    (0x10F5A, 0x10F85), (0x10F8A, 0x11046), (0x1104E, 0x110BA), (0x110C2, 0x110CC),
    (0x110CE, 0x1113F), (0x11144, 0x11173), (0x11176, 0x111C4), (0x111C9, 0x111CC),
    (0x111CE, 0x111DA), (0x111DC, 0x111DC), (0x111E0, 0x11237), (0x1123E, 0x112A8),
    (0x112AA, 0x113D3), (0x113D6, 0x113D6), (0x113D9, 0x1144A), (0x11450, 0x11459),
    (0x1145C, 0x1145C), (0x1145E, 0x114C5), (0x114C7, 0x115C0), (0x115D8, 0x11640),
    (0x11644, 0x1165F), (0x1166D, 0x116B8), (0x116BA, 0x1173B), (0x11740, 0x1183A),
    (0x1183C, 0x11943), (0x11947, 0x119E1), (0x119E3, 0x11A3E), (0x11A47, 0x11A99),
    (0x11A9D, 0x11A9D), (0x11AA3, 0x11AFF), (0x11B0A, 0x11BE0), (0x11BE2, 0x11C40),
    (0x11C46, 0x11C6F), (0x11C72, 0x11EF6), (0x11EF9, 0x11F42), (0x11F50, 0x11FD4),
    (0x11FF2, 0x11FFE), (0x12000, 0x1246F), (0x12475, 0x12FF0), (0x12FF3, 0x1342F),
    (0x13440, 0x16A6D), (0x16A70, 0x16AF4), (0x16AF6, 0x16B36), (0x16B40, 0x16B43),
    (0x16B46, 0x16D6C), (0x16D70, 0x16E96), (0x16E9B, 0x16FE1), (0x16FE3, 0x1BC9B),
    (0x1BC9D, 0x1BC9E), (0x1BCA4, 0x1CBFF), (0x1CCF0, 0x1CCFF), (0x1CEB4, 0x1CF4F),
    (0x1CFC4, 0x1CFFF), (0x1D0F6, 0x1D0FF), (0x1D127, 0x1D128), (0x1D165, 0x1D169),
    (0x1D16D, 0x1D172), (0x1D17B, 0x1D182), (0x1D185, 0x1D18B), (0x1D1AA, 0x1D1AD),
    (0x1D1EB, 0x1D1FF), (0x1D242, 0x1D244), (0x1D246, 0x1D2FF), (0x1D357, 0x1D7FF),
    (0x1DA00, 0x1DA36), (0x1DA3B, 0x1DA6C), (0x1DA75, 0x1DA75), (0x1DA84, 0x1DA84),
    (0x1DA8C, 0x1E14E), (0x1E150, 0x1E2FE), (0x1E300, 0x1E5FE), (0x1E600, 0x1E95D),
    (0x1E960, 0x1ECAB), (0x1ECAD, 0x1ECAF), (0x1ECB1, 0x1ED2D), (0x1ED2F, 0x1EEEF),
    (0x1EEF2, 0x1EFFF), (0x1F02C, 0x1F02F), (0x1F094, 0x1F09F), (0x1F0AF, 0x1F0B0),
    (0x1F0C0, 0x1F0C0), (0x1F0D0, 0x1F0D0), (0x1F0F6, 0x1F10C), (0x1F130, 0x1F149),
    (0x1F150, 0x1F169), (0x1F170, 0x1F189), (0x1F1AE, 0x1F1E5), (0x1F203, 0x1F20F),
    (0x1F23C, 0x1F23F), (0x1F249, 0x1F24F), (0x1F252, 0x1F25F), (0x1F266, 0x1F2FF),
    (0x1F6D8, 0x1F6DB), (0x1F6ED, 0x1F6EF), (0x1F6FD, 0x1F6FF), (0x1F777, 0x1F77A),
    (0x1F7DA, 0x1F7DF), (0x1F7EC, 0x1F7EF), (0x1F7F1, 0x1F7FF), (0x1F80C, 0x1F80F),
    (0x1F848, 0x1F84F), (0x1F85A, 0x1F85F), (0x1F888, 0x1F88F), (0x1F8AE, 0x1F8AF),
    (0x1F8BC, 0x1F8BF), (0x1F8C2, 0x1F8FF), (0x1FA54, 0x1FA5F), (0x1FA6E, 0x1FA6F),
    (0x1FA7D, 0x1FA7F), (0x1FA8A, 0x1FA8E), (0x1FAC7, 0x1FACD), (0x1FADD, 0x1FADE),
    (0x1FAEA, 0x1FAEF), (0x1FAF9, 0x1FAFF), (0x1FB93, 0x1FB93), (0x1FBF0, 0xE0000),
    (0xE0002, 0xE001F), (0xE0080, 0x10FFFF),
];

proof fn lemma_nonempty()
    ensures
        each_nonempty(ALLOWED_IN_WORD@),
{
}

proof fn lemma_apart()
    ensures
        each_before_next(ALLOWED_IN_WORD@),
{
}

/// The ranges of `ALLOWED_IN_WORD` are non-empty and in ascending order.
pub proof fn lemma_ascending()
    ensures
        ascending(ALLOWED_IN_WORD@),
{
    lemma_nonempty();
    lemma_apart();
}

/// How `ALLOWED_IN_WORD` begins.
pub proof fn lemma_first()
    ensures
        ALLOWED_IN_WORD@.len() == 354,
        ALLOWED_IN_WORD@[0] == (0x0030u32, 0x0039u32),
        ALLOWED_IN_WORD@[1] == (0x0041u32, 0x005Au32),
        ALLOWED_IN_WORD@[2] == (0x0061u32, 0x007Au32),
        ALLOWED_IN_WORD@[3] == (0x00AAu32, 0x00AAu32),
{
}

} // verus!
