//! The lowercase letters.

use crate::ranges::{ascending, each_before_next, each_nonempty};
use vstd::prelude::*;

verus! {

/// The lowercase letters (`Ll`).
pub const LOWERCASE_LETTERS: [(u32, u32); 662] = [
    (0x0061, 0x007A), (0x00B5, 0x00B5), (0x00DF, 0x00F6), (0x00F8, 0x00FF),
    (0x0101, 0x0101), (0x0103, 0x0103), (0x0105, 0x0105), (0x0107, 0x0107),
    (0x0109, 0x0109), (0x010B, 0x010B), (0x010D, 0x010D), (0x010F, 0x010F),
    (0x0111, 0x0111), (0x0113, 0x0113), (0x0115, 0x0115), (0x0117, 0x0117),
    (0x0119, 0x0119), (0x011B, 0x011B), (0x011D, 0x011D), (0x011F, 0x011F),
    (0x0121, 0x0121), (0x0123, 0x0123), (0x0125, 0x0125), (0x0127, 0x0127),
    (0x0129, 0x0129), (0x012B, 0x012B), (0x012D, 0x012D), (0x012F, 0x012F),
    (0x0131, 0x0131), (0x0133, 0x0133), (0x0135, 0x0135), (0x0137, 0x0138),
    (0x013A, 0x013A), (0x013C, 0x013C), (0x013E, 0x013E), (0x0140, 0x0140),
    (0x0142, 0x0142), (0x0144, 0x0144), (0x0146, 0x0146), (0x0148, 0x0149),
    (0x014B, 0x014B), (0x014D, 0x014D), (0x014F, 0x014F), (0x0151, 0x0151),
    (0x0153, 0x0153), (0x0155, 0x0155), (0x0157, 0x0157), (0x0159, 0x0159),
    (0x015B, 0x015B), (0x015D, 0x015D), (0x015F, 0x015F), (0x0161, 0x0161),
    (0x0163, 0x0163), (0x0165, 0x0165), (0x0167, 0x0167), (0x0169, 0x0169),
    (0x016B, 0x016B), (0x016D, 0x016D), (0x016F, 0x016F), (0x0171, 0x0171),
    (0x0173, 0x0173), (0x0175, 0x0175), (0x0177, 0x0177), (0x017A, 0x017A),
    (0x017C, 0x017C), (0x017E, 0x0180), (0x0183, 0x0183), (0x0185, 0x0185),
    (0x0188, 0x0188), (0x018C, 0x018D), (0x0192, 0x0192), (0x0195, 0x0195),
    (0x0199, 0x019B), (0x019E, 0x019E), (0x01A1, 0x01A1), (0x01A3, 0x01A3),
    (0x01A5, 0x01A5), (0x01A8, 0x01A8), (0x01AA, 0x01AB), (0x01AD, 0x01AD),
    (0x01B0, 0x01B0), (0x01B4, 0x01B4), (0x01B6, 0x01B6), (0x01B9, 0x01BA),
    (0x01BD, 0x01BF), (0x01C6, 0x01C6), (0x01C9, 0x01C9), (0x01CC, 0x01CC),
    (0x01CE, 0x01CE), (0x01D0, 0x01D0), (0x01D2, 0x01D2), (0x01D4, 0x01D4),
    (0x01D6, 0x01D6), (0x01D8, 0x01D8), (0x01DA, 0x01DA), (0x01DC, 0x01DD),
    (0x01DF, 0x01DF), (0x01E1, 0x01E1), (0x01E3, 0x01E3), (0x01E5, 0x01E5),
    (0x01E7, 0x01E7), (0x01E9, 0x01E9), (0x01EB, 0x01EB), (0x01ED, 0x01ED),
    (0x01EF, 0x01F0), (0x01F3, 0x01F3), (0x01F5, 0x01F5), (0x01F9, 0x01F9),
    (0x01FB, 0x01FB), (0x01FD, 0x01FD), (0x01FF, 0x01FF), (0x0201, 0x0201),
    (0x0203, 0x0203), (0x0205, 0x0205), (0x0207, 0x0207), (0x0209, 0x0209),
    (0x020B, 0x020B), (0x020D, 0x020D), (0x020F, 0x020F), (0x0211, 0x0211),
    (0x0213, 0x0213), (0x0215, 0x0215), (0x0217, 0x0217), (0x0219, 0x0219),
    (0x021B, 0x021B), (0x021D, 0x021D), (0x021F, 0x021F), (0x0221, 0x0221),
    (0x0223, 0x0223), (0x0225, 0x0225), (0x0227, 0x0227), (0x0229, 0x0229),
    (0x022B, 0x022B), (0x022D, 0x022D), (0x022F, 0x022F), (0x0231, 0x0231),
    (0x0233, 0x0239), (0x023C, 0x023C), (0x023F, 0x0240), (0x0242, 0x0242),
    (0x0247, 0x0247), (0x0249, 0x0249), (0x024B, 0x024B), (0x024D, 0x024D),
    (0x024F, 0x0293), (0x0295, 0x02AF), (0x0371, 0x0371), (0x0373, 0x0373),
    (0x0377, 0x0377), (0x037B, 0x037D), (0x0390, 0x0390), (0x03AC, 0x03CE),
    (0x03D0, 0x03D1), (0x03D5, 0x03D7), (0x03D9, 0x03D9), (0x03DB, 0x03DB),
    (0x03DD, 0x03DD), (0x03DF, 0x03DF), (0x03E1, 0x03E1), (0x03E3, 0x03E3),
    (0x03E5, 0x03E5), (0x03E7, 0x03E7), (0x03E9, 0x03E9), (0x03EB, 0x03EB),
    (0x03ED, 0x03ED), (0x03EF, 0x03F3), (0x03F5, 0x03F5), (0x03F8, 0x03F8),
    (0x03FB, 0x03FC), (0x0430, 0x045F), (0x0461, 0x0461), (0x0463, 0x0463),
    (0x0465, 0x0465), (0x0467, 0x0467), (0x0469, 0x0469), (0x046B, 0x046B),
    (0x046D, 0x046D), (0x046F, 0x046F), (0x0471, 0x0471), (0x0473, 0x0473),
    (0x0475, 0x0475), (0x0477, 0x0477), (0x0479, 0x0479), (0x047B, 0x047B),
    (0x047D, 0x047D), (0x047F, 0x047F), (0x0481, 0x0481), (0x048B, 0x048B),
    (0x048D, 0x048D), (0x048F, 0x048F), (0x0491, 0x0491), (0x0493, 0x0493),
    (0x0495, 0x0495), (0x0497, 0x0497), (0x0499, 0x0499), (0x049B, 0x049B),
    (0x049D, 0x049D), (0x049F, 0x049F), (0x04A1, 0x04A1), (0x04A3, 0x04A3),
    (0x04A5, 0x04A5), (0x04A7, 0x04A7), (0x04A9, 0x04A9), (0x04AB, 0x04AB),
    (0x04AD, 0x04AD), (0x04AF, 0x04AF), (0x04B1, 0x04B1), (0x04B3, 0x04B3),
    (0x04B5, 0x04B5), (0x04B7, 0x04B7), (0x04B9, 0x04B9), (0x04BB, 0x04BB),
    (0x04BD, 0x04BD), (0x04BF, 0x04BF), (0x04C2, 0x04C2), (0x04C4, 0x04C4),
    (0x04C6, 0x04C6), (0x04C8, 0x04C8), (0x04CA, 0x04CA), (0x04CC, 0x04CC),
    (0x04CE, 0x04CF), (0x04D1, 0x04D1), (0x04D3, 0x04D3), (0x04D5, 0x04D5),
    (0x04D7, 0x04D7), (0x04D9, 0x04D9), (0x04DB, 0x04DB), (0x04DD, 0x04DD),
    (0x04DF, 0x04DF), (0x04E1, 0x04E1), (0x04E3, 0x04E3), (0x04E5, 0x04E5),
    (0x04E7, 0x04E7), (0x04E9, 0x04E9), (0x04EB, 0x04EB), (0x04ED, 0x04ED),
    (0x04EF, 0x04EF), (0x04F1, 0x04F1), (0x04F3, 0x04F3), (0x04F5, 0x04F5),
    (0x04F7, 0x04F7), (0x04F9, 0x04F9), (0x04FB, 0x04FB), (0x04FD, 0x04FD),
    (0x04FF, 0x04FF), (0x0501, 0x0501), (0x0503, 0x0503), (0x0505, 0x0505),
    (0x0507, 0x0507), (0x0509, 0x0509), (0x050B, 0x050B), (0x050D, 0x050D),
    (0x050F, 0x050F), (0x0511, 0x0511), (0x0513, 0x0513), (0x0515, 0x0515),
    (0x0517, 0x0517), (0x0519, 0x0519), (0x051B, 0x051B), (0x051D, 0x051D),
    (0x051F, 0x051F), (0x0521, 0x0521), (0x0523, 0x0523), (0x0525, 0x0525),
    (0x0527, 0x0527), (0x0529, 0x0529), (0x052B, 0x052B), (0x052D, 0x052D),
    (0x052F, 0x052F), (0x0560, 0x0588), (0x10D0, 0x10FA), (0x10FD, 0x10FF),
    (0x13F8, 0x13FD), (0x1C80, 0x1C88), (0x1C8A, 0x1C8A), (0x1D00, 0x1D2B),
    (0x1D6B, 0x1D77), (0x1D79, 0x1D9A), (0x1E01, 0x1E01), (0x1E03, 0x1E03),
    (0x1E05, 0x1E05), (0x1E07, 0x1E07), (0x1E09, 0x1E09), (0x1E0B, 0x1E0B),
    (0x1E0D, 0x1E0D), (0x1E0F, 0x1E0F), (0x1E11, 0x1E11), (0x1E13, 0x1E13),
    (0x1E15, 0x1E15), (0x1E17, 0x1E17), (0x1E19, 0x1E19), (0x1E1B, 0x1E1B),
    (0x1E1D, 0x1E1D), (0x1E1F, 0x1E1F), (0x1E21, 0x1E21), (0x1E23, 0x1E23),
    (0x1E25, 0x1E25), (0x1E27, 0x1E27), (0x1E29, 0x1E29), (0x1E2B, 0x1E2B),
    (0x1E2D, 0x1E2D), (0x1E2F, 0x1E2F), (0x1E31, 0x1E31), (0x1E33, 0x1E33),
    (0x1E35, 0x1E35), (0x1E37, 0x1E37), (0x1E39, 0x1E39), (0x1E3B, 0x1E3B),
    (0x1E3D, 0x1E3D), (0x1E3F, 0x1E3F), (0x1E41, 0x1E41), (0x1E43, 0x1E43),
    (0x1E45, 0x1E45), (0x1E47, 0x1E47), (0x1E49, 0x1E49), (0x1E4B, 0x1E4B),
    (0x1E4D, 0x1E4D), (0x1E4F, 0x1E4F), (0x1E51, 0x1E51), (0x1E53, 0x1E53),
    (0x1E55, 0x1E55), (0x1E57, 0x1E57), (0x1E59, 0x1E59), (0x1E5B, 0x1E5B),
    (0x1E5D, 0x1E5D), (0x1E5F, 0x1E5F), (0x1E61, 0x1E61), (0x1E63, 0x1E63),
    (0x1E65, 0x1E65), (0x1E67, 0x1E67), (0x1E69, 0x1E69), (0x1E6B, 0x1E6B),
    (0x1E6D, 0x1E6D), (0x1E6F, 0x1E6F), (0x1E71, 0x1E71), (0x1E73, 0x1E73),
    (0x1E75, 0x1E75), (0x1E77, 0x1E77), (0x1E79, 0x1E79), (0x1E7B, 0x1E7B),
    (0x1E7D, 0x1E7D), (0x1E7F, 0x1E7F), (0x1E81, 0x1E81), (0x1E83, 0x1E83),
    (0x1E85, 0x1E85), (0x1E87, 0x1E87), (0x1E89, 0x1E89), (0x1E8B, 0x1E8B),
    (0x1E8D, 0x1E8D), (0x1E8F, 0x1E8F), (0x1E91, 0x1E91), (0x1E93, 0x1E93),
    (0x1E95, 0x1E9D), (0x1E9F, 0x1E9F), (0x1EA1, 0x1EA1), (0x1EA3, 0x1EA3),
    (0x1EA5, 0x1EA5), (0x1EA7, 0x1EA7), (0x1EA9, 0x1EA9), (0x1EAB, 0x1EAB),
    (0x1EAD, 0x1EAD), (0x1EAF, 0x1EAF), (0x1EB1, 0x1EB1), (0x1EB3, 0x1EB3),
    (0x1EB5, 0x1EB5), (0x1EB7, 0x1EB7), (0x1EB9, 0x1EB9), (0x1EBB, 0x1EBB),
    (0x1EBD, 0x1EBD), (0x1EBF, 0x1EBF), (0x1EC1, 0x1EC1), (0x1EC3, 0x1EC3),
    (0x1EC5, 0x1EC5), (0x1EC7, 0x1EC7), (0x1EC9, 0x1EC9), (0x1ECB, 0x1ECB),
    (0x1ECD, 0x1ECD), (0x1ECF, 0x1ECF), (0x1ED1, 0x1ED1), (0x1ED3, 0x1ED3),
    (0x1ED5, 0x1ED5), (0x1ED7, 0x1ED7), (0x1ED9, 0x1ED9), (0x1EDB, 0x1EDB),
    (0x1EDD, 0x1EDD), (0x1EDF, 0x1EDF), (0x1EE1, 0x1EE1), (0x1EE3, 0x1EE3),
    (0x1EE5, 0x1EE5), (0x1EE7, 0x1EE7), (0x1EE9, 0x1EE9), (0x1EEB, 0x1EEB),
    (0x1EED, 0x1EED), (0x1EEF, 0x1EEF), (0x1EF1, 0x1EF1), (0x1EF3, 0x1EF3),
    (0x1EF5, 0x1EF5), (0x1EF7, 0x1EF7), (0x1EF9, 0x1EF9), (0x1EFB, 0x1EFB),
    (0x1EFD, 0x1EFD), (0x1EFF, 0x1F07), (0x1F10, 0x1F15), (0x1F20, 0x1F27),
    (0x1F30, 0x1F37), (0x1F40, 0x1F45), (0x1F50, 0x1F57), (0x1F60, 0x1F67),
    (0x1F70, 0x1F7D), (0x1F80, 0x1F87), (0x1F90, 0x1F97), (0x1FA0, 0x1FA7),
    (0x1FB0, 0x1FB4), (0x1FB6, 0x1FB7), (0x1FBE, 0x1FBE), (0x1FC2, 0x1FC4),
    (0x1FC6, 0x1FC7), (0x1FD0, 0x1FD3), (0x1FD6, 0x1FD7), (0x1FE0, 0x1FE7),
    (0x1FF2, 0x1FF4), (0x1FF6, 0x1FF7), (0x210A, 0x210A), (0x210E, 0x210F),
    (0x2113, 0x2113), (0x212F, 0x212F), (0x2134, 0x2134), (0x2139, 0x2139),
    (0x213C, 0x213D), (0x2146, 0x2149), (0x214E, 0x214E), (0x2184, 0x2184),
    (0x2C30, 0x2C5F), (0x2C61, 0x2C61), (0x2C65, 0x2C66), (0x2C68, 0x2C68),
    (0x2C6A, 0x2C6A), (0x2C6C, 0x2C6C), (0x2C71, 0x2C71), (0x2C73, 0x2C74),
    (0x2C76, 0x2C7B), (0x2C81, 0x2C81), (0x2C83, 0x2C83), (0x2C85, 0x2C85),
    (0x2C87, 0x2C87), (0x2C89, 0x2C89), (0x2C8B, 0x2C8B), (0x2C8D, 0x2C8D),
    (0x2C8F, 0x2C8F), (0x2C91, 0x2C91), (0x2C93, 0x2C93), (0x2C95, 0x2C95),
    (0x2C97, 0x2C97), (0x2C99, 0x2C99), (0x2C9B, 0x2C9B), (0x2C9D, 0x2C9D),
    (0x2C9F, 0x2C9F), (0x2CA1, 0x2CA1), (0x2CA3, 0x2CA3), (0x2CA5, 0x2CA5),
    (0x2CA7, 0x2CA7), (0x2CA9, 0x2CA9), (0x2CAB, 0x2CAB), (0x2CAD, 0x2CAD),
    (0x2CAF, 0x2CAF), (0x2CB1, 0x2CB1), (0x2CB3, 0x2CB3), (0x2CB5, 0x2CB5),
    (0x2CB7, 0x2CB7), (0x2CB9, 0x2CB9), (0x2CBB, 0x2CBB), (0x2CBD, 0x2CBD),
    (0x2CBF, 0x2CBF), (0x2CC1, 0x2CC1), (0x2CC3, 0x2CC3), (0x2CC5, 0x2CC5),
    (0x2CC7, 0x2CC7), (0x2CC9, 0x2CC9), (0x2CCB, 0x2CCB), (0x2CCD, 0x2CCD),
    (0x2CCF, 0x2CCF), (0x2CD1, 0x2CD1), (0x2CD3, 0x2CD3), (0x2CD5, 0x2CD5),
    (0x2CD7, 0x2CD7), (0x2CD9, 0x2CD9), (0x2CDB, 0x2CDB), (0x2CDD, 0x2CDD),
    (0x2CDF, 0x2CDF), (0x2CE1, 0x2CE1), (0x2CE3, 0x2CE4), (0x2CEC, 0x2CEC),
    (0x2CEE, 0x2CEE), (0x2CF3, 0x2CF3), (0x2D00, 0x2D25), (0x2D27, 0x2D27),
    (0x2D2D, 0x2D2D), (0xA641, 0xA641), (0xA643, 0xA643), (0xA645, 0xA645),
    (0xA647, 0xA647), (0xA649, 0xA649), (0xA64B, 0xA64B), (0xA64D, 0xA64D),
    (0xA64F, 0xA64F), (0xA651, 0xA651), (0xA653, 0xA653), (0xA655, 0xA655),
    (0xA657, 0xA657), (0xA659, 0xA659), (0xA65B, 0xA65B), (0xA65D, 0xA65D),
    (0xA65F, 0xA65F), (0xA661, 0xA661), (0xA663, 0xA663), (0xA665, 0xA665),
    (0xA667, 0xA667), (0xA669, 0xA669), (0xA66B, 0xA66B), (0xA66D, 0xA66D),
    (0xA681, 0xA681), (0xA683, 0xA683), (0xA685, 0xA685), (0xA687, 0xA687),
    (0xA689, 0xA689), (0xA68B, 0xA68B), (0xA68D, 0xA68D), (0xA68F, 0xA68F),
    (0xA691, 0xA691), (0xA693, 0xA693), (0xA695, 0xA695), (0xA697, 0xA697),
    (0xA699, 0xA699), (0xA69B, 0xA69B), (0xA723, 0xA723), (0xA725, 0xA725),
    (0xA727, 0xA727), (0xA729, 0xA729), (0xA72B, 0xA72B), (0xA72D, 0xA72D),
    (0xA72F, 0xA731), (0xA733, 0xA733), (0xA735, 0xA735), (0xA737, 0xA737),
    (0xA739, 0xA739), (0xA73B, 0xA73B), (0xA73D, 0xA73D), (0xA73F, 0xA73F),
    (0xA741, 0xA741), (0xA743, 0xA743), (0xA745, 0xA745), (0xA747, 0xA747),
    (0xA749, 0xA749), (0xA74B, 0xA74B), (0xA74D, 0xA74D), (0xA74F, 0xA74F),
    (0xA751, 0xA751), (0xA753, 0xA753), (0xA755, 0xA755), (0xA757, 0xA757),
    (0xA759, 0xA759), (0xA75B, 0xA75B), (0xA75D, 0xA75D), (0xA75F, 0xA75F),
    (0xA761, 0xA761), (0xA763, 0xA763), (0xA765, 0xA765), (0xA767, 0xA767),
    (0xA769, 0xA769), (0xA76B, 0xA76B), (0xA76D, 0xA76D), (0xA76F, 0xA76F),
    (0xA771, 0xA778), (0xA77A, 0xA77A), (0xA77C, 0xA77C), (0xA77F, 0xA77F),
    (0xA781, 0xA781), (0xA783, 0xA783), (0xA785, 0xA785), (0xA787, 0xA787),
    (0xA78C, 0xA78C), (0xA78E, 0xA78E), (0xA791, 0xA791), (0xA793, 0xA795),
    (0xA797, 0xA797), (0xA799, 0xA799), (0xA79B, 0xA79B), (0xA79D, 0xA79D),
    (0xA79F, 0xA79F), (0xA7A1, 0xA7A1), (0xA7A3, 0xA7A3), (0xA7A5, 0xA7A5),
    (0xA7A7, 0xA7A7), (0xA7A9, 0xA7A9), (0xA7AF, 0xA7AF), (0xA7B5, 0xA7B5),
    (0xA7B7, 0xA7B7), (0xA7B9, 0xA7B9), (0xA7BB, 0xA7BB), (0xA7BD, 0xA7BD),
    (0xA7BF, 0xA7BF), (0xA7C1, 0xA7C1), (0xA7C3, 0xA7C3), (0xA7C8, 0xA7C8),
    (0xA7CA, 0xA7CA), (0xA7CD, 0xA7CD), (0xA7D1, 0xA7D1), (0xA7D3, 0xA7D3),
    (0xA7D5, 0xA7D5), (0xA7D7, 0xA7D7), (0xA7D9, 0xA7D9), (0xA7DB, 0xA7DB),
    (0xA7F6, 0xA7F6), (0xA7FA, 0xA7FA), (0xAB30, 0xAB5A), (0xAB60, 0xAB68),
    (0xAB70, 0xABBF), (0xFB00, 0xFB06), (0xFB13, 0xFB17), (0xFF41, 0xFF5A),
    (0x10428, 0x1044F), (0x104D8, 0x104FB), (0x10597, 0x105A1), (0x105A3, 0x105B1),
    (0x105B3, 0x105B9), (0x105BB, 0x105BC), (0x10CC0, 0x10CF2), (0x10D70, 0x10D85),
    (0x118C0, 0x118DF), (0x16E60, 0x16E7F), (0x1D41A, 0x1D433), (0x1D44E, 0x1D454),
    (0x1D456, 0x1D467), (0x1D482, 0x1D49B), (0x1D4B6, 0x1D4B9), (0x1D4BB, 0x1D4BB),
    (0x1D4BD, 0x1D4C3), (0x1D4C5, 0x1D4CF), (0x1D4EA, 0x1D503), (0x1D51E, 0x1D537),
    (0x1D552, 0x1D56B), (0x1D586, 0x1D59F), (0x1D5BA, 0x1D5D3), (0x1D5EE, 0x1D607),
    (0x1D622, 0x1D63B), (0x1D656, 0x1D66F), (0x1D68A, 0x1D6A5), (0x1D6C2, 0x1D6DA),
    (0x1D6DC, 0x1D6E1), (0x1D6FC, 0x1D714), (0x1D716, 0x1D71B), (0x1D736, 0x1D74E),
    (0x1D750, 0x1D755), (0x1D770, 0x1D788), (0x1D78A, 0x1D78F), (0x1D7AA, 0x1D7C2),
    (0x1D7C4, 0x1D7C9), (0x1D7CB, 0x1D7CB), (0x1DF00, 0x1DF09), (0x1DF0B, 0x1DF1E),
    (0x1DF25, 0x1DF2A), (0x1E922, 0x1E943),
];

proof fn lemma_nonempty()
    ensures
        each_nonempty(LOWERCASE_LETTERS@),
{
}

proof fn lemma_apart()
    ensures
        each_before_next(LOWERCASE_LETTERS@),
{
}

/// The ranges of `LOWERCASE_LETTERS` are non-empty and in ascending order.
pub proof fn lemma_ascending()
    ensures
        ascending(LOWERCASE_LETTERS@),
{
    lemma_nonempty();
    lemma_apart();
}

/// How `LOWERCASE_LETTERS` begins.
pub proof fn lemma_first()
    ensures
        LOWERCASE_LETTERS@.len() == 662,
        LOWERCASE_LETTERS@[0] == (0x0061u32, 0x007Au32),
        LOWERCASE_LETTERS@[1] == (0x00B5u32, 0x00B5u32),
{
}

} // verus!
