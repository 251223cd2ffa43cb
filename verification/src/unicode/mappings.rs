//! The titlecase mappings that differ from the uppercase mappings.

use vstd::prelude::*;

verus! {

/// The characters whose titlecase mapping differs from their uppercase
/// mapping, in ascending order, each followed by the characters of its
/// titlecase mapping. A mapping shorter than three characters is filled up
/// with U+0000, which occurs in no mapping.
pub const TITLECASE_MAPPINGS: [(char, char, char, char); 135] = [
    ('\u{00DF}', '\u{0053}', '\u{0073}', '\u{0000}'),
    ('\u{01C4}', '\u{01C5}', '\u{0000}', '\u{0000}'),
    ('\u{01C5}', '\u{01C5}', '\u{0000}', '\u{0000}'),
    ('\u{01C6}', '\u{01C5}', '\u{0000}', '\u{0000}'),
    ('\u{01C7}', '\u{01C8}', '\u{0000}', '\u{0000}'),
    ('\u{01C8}', '\u{01C8}', '\u{0000}', '\u{0000}'),
    ('\u{01C9}', '\u{01C8}', '\u{0000}', '\u{0000}'),
    ('\u{01CA}', '\u{01CB}', '\u{0000}', '\u{0000}'),
    ('\u{01CB}', '\u{01CB}', '\u{0000}', '\u{0000}'),
    ('\u{01CC}', '\u{01CB}', '\u{0000}', '\u{0000}'),
    ('\u{01F1}', '\u{01F2}', '\u{0000}', '\u{0000}'),
    ('\u{01F2}', '\u{01F2}', '\u{0000}', '\u{0000}'),
    ('\u{01F3}', '\u{01F2}', '\u{0000}', '\u{0000}'),
    ('\u{0587}', '\u{0535}', '\u{0582}', '\u{0000}'),
    ('\u{10D0}', '\u{10D0}', '\u{0000}', '\u{0000}'),
    ('\u{10D1}', '\u{10D1}', '\u{0000}', '\u{0000}'),
    ('\u{10D2}', '\u{10D2}', '\u{0000}', '\u{0000}'),
    ('\u{10D3}', '\u{10D3}', '\u{0000}', '\u{0000}'),
    ('\u{10D4}', '\u{10D4}', '\u{0000}', '\u{0000}'),
    ('\u{10D5}', '\u{10D5}', '\u{0000}', '\u{0000}'),
    ('\u{10D6}', '\u{10D6}', '\u{0000}', '\u{0000}'),
    ('\u{10D7}', '\u{10D7}', '\u{0000}', '\u{0000}'),
    ('\u{10D8}', '\u{10D8}', '\u{0000}', '\u{0000}'),
    ('\u{10D9}', '\u{10D9}', '\u{0000}', '\u{0000}'),
    ('\u{10DA}', '\u{10DA}', '\u{0000}', '\u{0000}'),
    ('\u{10DB}', '\u{10DB}', '\u{0000}', '\u{0000}'),
    ('\u{10DC}', '\u{10DC}', '\u{0000}', '\u{0000}'),
    ('\u{10DD}', '\u{10DD}', '\u{0000}', '\u{0000}'),
    ('\u{10DE}', '\u{10DE}', '\u{0000}', '\u{0000}'),
    ('\u{10DF}', '\u{10DF}', '\u{0000}', '\u{0000}'),
    ('\u{10E0}', '\u{10E0}', '\u{0000}', '\u{0000}'),
    ('\u{10E1}', '\u{10E1}', '\u{0000}', '\u{0000}'),
    ('\u{10E2}', '\u{10E2}', '\u{0000}', '\u{0000}'),
    ('\u{10E3}', '\u{10E3}', '\u{0000}', '\u{0000}'),
    ('\u{10E4}', '\u{10E4}', '\u{0000}', '\u{0000}'),
    ('\u{10E5}', '\u{10E5}', '\u{0000}', '\u{0000}'),
    ('\u{10E6}', '\u{10E6}', '\u{0000}', '\u{0000}'),
    ('\u{10E7}', '\u{10E7}', '\u{0000}', '\u{0000}'),
    ('\u{10E8}', '\u{10E8}', '\u{0000}', '\u{0000}'),
    ('\u{10E9}', '\u{10E9}', '\u{0000}', '\u{0000}'),
    ('\u{10EA}', '\u{10EA}', '\u{0000}', '\u{0000}'),
    ('\u{10EB}', '\u{10EB}', '\u{0000}', '\u{0000}'),
    ('\u{10EC}', '\u{10EC}', '\u{0000}', '\u{0000}'),
    ('\u{10ED}', '\u{10ED}', '\u{0000}', '\u{0000}'),
    ('\u{10EE}', '\u{10EE}', '\u{0000}', '\u{0000}'),
    ('\u{10EF}', '\u{10EF}', '\u{0000}', '\u{0000}'),
    ('\u{10F0}', '\u{10F0}', '\u{0000}', '\u{0000}'),
    ('\u{10F1}', '\u{10F1}', '\u{0000}', '\u{0000}'),
    ('\u{10F2}', '\u{10F2}', '\u{0000}', '\u{0000}'),
    ('\u{10F3}', '\u{10F3}', '\u{0000}', '\u{0000}'),
    ('\u{10F4}', '\u{10F4}', '\u{0000}', '\u{0000}'),
    ('\u{10F5}', '\u{10F5}', '\u{0000}', '\u{0000}'),
    ('\u{10F6}', '\u{10F6}', '\u{0000}', '\u{0000}'),
    ('\u{10F7}', '\u{10F7}', '\u{0000}', '\u{0000}'),
    ('\u{10F8}', '\u{10F8}', '\u{0000}', '\u{0000}'),
    ('\u{10F9}', '\u{10F9}', '\u{0000}', '\u{0000}'),
    ('\u{10FA}', '\u{10FA}', '\u{0000}', '\u{0000}'),
    ('\u{10FD}', '\u{10FD}', '\u{0000}', '\u{0000}'),
    ('\u{10FE}', '\u{10FE}', '\u{0000}', '\u{0000}'),
    ('\u{10FF}', '\u{10FF}', '\u{0000}', '\u{0000}'),
    ('\u{1F80}', '\u{1F88}', '\u{0000}', '\u{0000}'),
    ('\u{1F81}', '\u{1F89}', '\u{0000}', '\u{0000}'),
    ('\u{1F82}', '\u{1F8A}', '\u{0000}', '\u{0000}'),
    ('\u{1F83}', '\u{1F8B}', '\u{0000}', '\u{0000}'),
    ('\u{1F84}', '\u{1F8C}', '\u{0000}', '\u{0000}'),
    ('\u{1F85}', '\u{1F8D}', '\u{0000}', '\u{0000}'),
    ('\u{1F86}', '\u{1F8E}', '\u{0000}', '\u{0000}'),
    ('\u{1F87}', '\u{1F8F}', '\u{0000}', '\u{0000}'),
    ('\u{1F88}', '\u{1F88}', '\u{0000}', '\u{0000}'),
    ('\u{1F89}', '\u{1F89}', '\u{0000}', '\u{0000}'),
    ('\u{1F8A}', '\u{1F8A}', '\u{0000}', '\u{0000}'),
    ('\u{1F8B}', '\u{1F8B}', '\u{0000}', '\u{0000}'),
    ('\u{1F8C}', '\u{1F8C}', '\u{0000}', '\u{0000}'),
    ('\u{1F8D}', '\u{1F8D}', '\u{0000}', '\u{0000}'),
    ('\u{1F8E}', '\u{1F8E}', '\u{0000}', '\u{0000}'),
    ('\u{1F8F}', '\u{1F8F}', '\u{0000}', '\u{0000}'),
    ('\u{1F90}', '\u{1F98}', '\u{0000}', '\u{0000}'),
    ('\u{1F91}', '\u{1F99}', '\u{0000}', '\u{0000}'),
    ('\u{1F92}', '\u{1F9A}', '\u{0000}', '\u{0000}'),
    ('\u{1F93}', '\u{1F9B}', '\u{0000}', '\u{0000}'),
    ('\u{1F94}', '\u{1F9C}', '\u{0000}', '\u{0000}'),
    ('\u{1F95}', '\u{1F9D}', '\u{0000}', '\u{0000}'),
    ('\u{1F96}', '\u{1F9E}', '\u{0000}', '\u{0000}'),
    ('\u{1F97}', '\u{1F9F}', '\u{0000}', '\u{0000}'),
    ('\u{1F98}', '\u{1F98}', '\u{0000}', '\u{0000}'),
    ('\u{1F99}', '\u{1F99}', '\u{0000}', '\u{0000}'),
    ('\u{1F9A}', '\u{1F9A}', '\u{0000}', '\u{0000}'),
    ('\u{1F9B}', '\u{1F9B}', '\u{0000}', '\u{0000}'),
    ('\u{1F9C}', '\u{1F9C}', '\u{0000}', '\u{0000}'),
    ('\u{1F9D}', '\u{1F9D}', '\u{0000}', '\u{0000}'),
    ('\u{1F9E}', '\u{1F9E}', '\u{0000}', '\u{0000}'),
    ('\u{1F9F}', '\u{1F9F}', '\u{0000}', '\u{0000}'),
    ('\u{1FA0}', '\u{1FA8}', '\u{0000}', '\u{0000}'),
    ('\u{1FA1}', '\u{1FA9}', '\u{0000}', '\u{0000}'),
    ('\u{1FA2}', '\u{1FAA}', '\u{0000}', '\u{0000}'),
    ('\u{1FA3}', '\u{1FAB}', '\u{0000}', '\u{0000}'),
    ('\u{1FA4}', '\u{1FAC}', '\u{0000}', '\u{0000}'),
    ('\u{1FA5}', '\u{1FAD}', '\u{0000}', '\u{0000}'),
    ('\u{1FA6}', '\u{1FAE}', '\u{0000}', '\u{0000}'),
    ('\u{1FA7}', '\u{1FAF}', '\u{0000}', '\u{0000}'),
    ('\u{1FA8}', '\u{1FA8}', '\u{0000}', '\u{0000}'),
    ('\u{1FA9}', '\u{1FA9}', '\u{0000}', '\u{0000}'),
    ('\u{1FAA}', '\u{1FAA}', '\u{0000}', '\u{0000}'),
    ('\u{1FAB}', '\u{1FAB}', '\u{0000}', '\u{0000}'),
    ('\u{1FAC}', '\u{1FAC}', '\u{0000}', '\u{0000}'),
    ('\u{1FAD}', '\u{1FAD}', '\u{0000}', '\u{0000}'),
    ('\u{1FAE}', '\u{1FAE}', '\u{0000}', '\u{0000}'),
    ('\u{1FAF}', '\u{1FAF}', '\u{0000}', '\u{0000}'),
    ('\u{1FB2}', '\u{1FBA}', '\u{0345}', '\u{0000}'),
    ('\u{1FB3}', '\u{1FBC}', '\u{0000}', '\u{0000}'),
    ('\u{1FB4}', '\u{0386}', '\u{0345}', '\u{0000}'),
    ('\u{1FB7}', '\u{0391}', '\u{0342}', '\u{0345}'),
    ('\u{1FBC}', '\u{1FBC}', '\u{0000}', '\u{0000}'),
    ('\u{1FC2}', '\u{1FCA}', '\u{0345}', '\u{0000}'),
    ('\u{1FC3}', '\u{1FCC}', '\u{0000}', '\u{0000}'),
    ('\u{1FC4}', '\u{0389}', '\u{0345}', '\u{0000}'),
    ('\u{1FC7}', '\u{0397}', '\u{0342}', '\u{0345}'),
    ('\u{1FCC}', '\u{1FCC}', '\u{0000}', '\u{0000}'),
    ('\u{1FF2}', '\u{1FFA}', '\u{0345}', '\u{0000}'),
    ('\u{1FF3}', '\u{1FFC}', '\u{0000}', '\u{0000}'),
    ('\u{1FF4}', '\u{038F}', '\u{0345}', '\u{0000}'),
    ('\u{1FF7}', '\u{03A9}', '\u{0342}', '\u{0345}'),
    ('\u{1FFC}', '\u{1FFC}', '\u{0000}', '\u{0000}'),
    ('\u{FB00}', '\u{0046}', '\u{0066}', '\u{0000}'),
    ('\u{FB01}', '\u{0046}', '\u{0069}', '\u{0000}'),
    ('\u{FB02}', '\u{0046}', '\u{006C}', '\u{0000}'),
    ('\u{FB03}', '\u{0046}', '\u{0066}', '\u{0069}'),
    ('\u{FB04}', '\u{0046}', '\u{0066}', '\u{006C}'),
    ('\u{FB05}', '\u{0053}', '\u{0074}', '\u{0000}'),
    ('\u{FB06}', '\u{0053}', '\u{0074}', '\u{0000}'),
    ('\u{FB13}', '\u{0544}', '\u{0576}', '\u{0000}'),
    ('\u{FB14}', '\u{0544}', '\u{0565}', '\u{0000}'),
    ('\u{FB15}', '\u{0544}', '\u{056B}', '\u{0000}'),
    ('\u{FB16}', '\u{054E}', '\u{0576}', '\u{0000}'),
    ('\u{FB17}', '\u{0544}', '\u{056D}', '\u{0000}'),
];

/// The first components of `mappings` increase strictly.
pub open spec fn keys_ascending(mappings: Seq<(char, char, char, char)>) -> bool {
    forall|i: int| 0 <= i < mappings.len() - 1 ==> (#[trigger] mappings[i]).0 < mappings[i + 1].0
}

/// The characters that `TITLECASE_MAPPINGS` lists are in ascending order.
pub proof fn lemma_keys_ascending()
    ensures
        keys_ascending(TITLECASE_MAPPINGS@),
{
}

} // verus!
