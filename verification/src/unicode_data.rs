//! Unicode character data for canonical normalization (Unicode 14.0):
//! canonical combining classes, full canonical decompositions and primary
//! composites. Hangul syllables are handled by arithmetic elsewhere.
use vstd::prelude::*;

verus! {

/// The canonical combining class of the scalar value `v`.
pub closed spec fn combining_class(v: u32) -> u8 {
if v < 0x1AC1 {
if v < 0x82E {
if v < 0x5C7 {
if v < 0x591 {
if v < 0x34A {
if v < 0x323 {
if v < 0x31A {
if v < 0x315 {
if v < 0x300 {
0
} else {
230
}
} else {
if v < 0x316 {
232
} else {
220
}
}
} else {
if v < 0x31C {
if v < 0x31B {
232
} else {
216
}
} else {
if v < 0x321 {
220
} else {
202
}
}
}
} else {
if v < 0x339 {
if v < 0x329 {
if v < 0x327 {
220
} else {
202
}
} else {
if v < 0x334 {
220
} else {
1
}
}
} else {
if v < 0x345 {
if v < 0x33D {
220
} else {
230
}
} else {
if v < 0x346 {
240
} else {
if v < 0x347 {
230
} else {
220
}
}
}
}
}
} else {
if v < 0x35C {
if v < 0x353 {
if v < 0x34F {
if v < 0x34D {
230
} else {
220
}
} else {
if v < 0x350 {
0
} else {
230
}
}
} else {
if v < 0x358 {
if v < 0x357 {
220
} else {
230
}
} else {
if v < 0x359 {
232
} else {
if v < 0x35B {
220
} else {
230
}
}
}
}
} else {
if v < 0x362 {
if v < 0x35F {
if v < 0x35D {
233
} else {
234
}
} else {
if v < 0x360 {
233
} else {
234
}
}
} else {
if v < 0x370 {
if v < 0x363 {
233
} else {
230
}
} else {
if v < 0x483 {
0
} else {
if v < 0x488 {
230
} else {
0
}
}
}
}
}
}
} else {
if v < 0x5B4 {
if v < 0x5AA {
if v < 0x59A {
if v < 0x596 {
if v < 0x592 {
220
} else {
230
}
} else {
if v < 0x597 {
220
} else {
230
}
}
} else {
if v < 0x59C {
if v < 0x59B {
222
} else {
220
}
} else {
if v < 0x5A2 {
230
} else {
if v < 0x5A8 {
220
} else {
230
}
}
}
}
} else {
if v < 0x5AF {
if v < 0x5AD {
if v < 0x5AB {
220
} else {
230
}
} else {
if v < 0x5AE {
222
} else {
228
}
}
} else {
if v < 0x5B1 {
if v < 0x5B0 {
230
} else {
10
}
} else {
if v < 0x5B2 {
11
} else {
if v < 0x5B3 {
12
} else {
13
}
}
}
}
}
} else {
if v < 0x5BE {
if v < 0x5B8 {
if v < 0x5B6 {
if v < 0x5B5 {
14
} else {
15
}
} else {
if v < 0x5B7 {
16
} else {
17
}
}
} else {
if v < 0x5BB {
if v < 0x5B9 {
18
} else {
19
}
} else {
if v < 0x5BC {
20
} else {
if v < 0x5BD {
21
} else {
22
}
}
}
}
} else {
if v < 0x5C2 {
if v < 0x5C0 {
if v < 0x5BF {
0
} else {
23
}
} else {
if v < 0x5C1 {
0
} else {
24
}
}
} else {
if v < 0x5C4 {
if v < 0x5C3 {
25
} else {
0
}
} else {
if v < 0x5C5 {
230
} else {
if v < 0x5C6 {
220
} else {
0
}
}
}
}
}
}
}
} else {
if v < 0x6EE {
if v < 0x657 {
if v < 0x64C {
if v < 0x619 {
if v < 0x610 {
if v < 0x5C8 {
18
} else {
0
}
} else {
if v < 0x618 {
230
} else {
30
}
}
} else {
if v < 0x61B {
if v < 0x61A {
31
} else {
32
}
} else {
if v < 0x64B {
0
} else {
27
}
}
}
} else {
if v < 0x650 {
if v < 0x64E {
if v < 0x64D {
28
} else {
29
}
} else {
if v < 0x64F {
30
} else {
31
}
}
} else {
if v < 0x652 {
if v < 0x651 {
32
} else {
33
}
} else {
if v < 0x653 {
34
} else {
if v < 0x655 {
230
} else {
220
}
}
}
}
}
} else {
if v < 0x6DF {
if v < 0x660 {
if v < 0x65D {
if v < 0x65C {
230
} else {
220
}
} else {
if v < 0x65F {
230
} else {
220
}
}
} else {
if v < 0x671 {
if v < 0x670 {
0
} else {
35
}
} else {
if v < 0x6D6 {
0
} else {
if v < 0x6DD {
230
} else {
0
}
}
}
}
} else {
if v < 0x6E7 {
if v < 0x6E4 {
if v < 0x6E3 {
230
} else {
220
}
} else {
if v < 0x6E5 {
230
} else {
0
}
}
} else {
if v < 0x6EA {
if v < 0x6E9 {
230
} else {
0
}
} else {
if v < 0x6EB {
220
} else {
if v < 0x6ED {
230
} else {
220
}
}
}
}
}
}
} else {
if v < 0x746 {
if v < 0x73A {
if v < 0x731 {
if v < 0x712 {
if v < 0x711 {
0
} else {
36
}
} else {
if v < 0x730 {
0
} else {
230
}
}
} else {
if v < 0x734 {
if v < 0x732 {
220
} else {
230
}
} else {
if v < 0x735 {
220
} else {
if v < 0x737 {
230
} else {
220
}
}
}
}
} else {
if v < 0x73F {
if v < 0x73D {
if v < 0x73B {
230
} else {
220
}
} else {
if v < 0x73E {
230
} else {
220
}
}
} else {
if v < 0x743 {
if v < 0x742 {
230
} else {
220
}
} else {
if v < 0x744 {
230
} else {
if v < 0x745 {
220
} else {
230
}
}
}
}
}
} else {
if v < 0x7FD {
if v < 0x74B {
if v < 0x748 {
if v < 0x747 {
220
} else {
230
}
} else {
if v < 0x749 {
220
} else {
230
}
}
} else {
if v < 0x7F2 {
if v < 0x7EB {
0
} else {
230
}
} else {
if v < 0x7F3 {
220
} else {
if v < 0x7F4 {
230
} else {
0
}
}
}
}
} else {
if v < 0x81B {
if v < 0x816 {
if v < 0x7FE {
220
} else {
0
}
} else {
if v < 0x81A {
230
} else {
0
}
}
} else {
if v < 0x825 {
if v < 0x824 {
230
} else {
0
}
} else {
if v < 0x828 {
230
} else {
if v < 0x829 {
0
} else {
230
}
}
}
}
}
}
}
}
} else {
if v < 0xDCB {
if v < 0x9BC {
if v < 0x8ED {
if v < 0x8CF {
if v < 0x899 {
if v < 0x85C {
if v < 0x859 {
0
} else {
220
}
} else {
if v < 0x898 {
0
} else {
230
}
}
} else {
if v < 0x8A0 {
if v < 0x89C {
220
} else {
230
}
} else {
if v < 0x8CA {
0
} else {
230
}
}
}
} else {
if v < 0x8E4 {
if v < 0x8E2 {
if v < 0x8D4 {
220
} else {
230
}
} else {
if v < 0x8E3 {
0
} else {
220
}
}
} else {
if v < 0x8E7 {
if v < 0x8E6 {
230
} else {
220
}
} else {
if v < 0x8E9 {
230
} else {
if v < 0x8EA {
220
} else {
230
}
}
}
}
}
} else {
if v < 0x900 {
if v < 0x8F3 {
if v < 0x8F1 {
if v < 0x8F0 {
220
} else {
27
}
} else {
if v < 0x8F2 {
28
} else {
29
}
}
} else {
if v < 0x8F7 {
if v < 0x8F6 {
230
} else {
220
}
} else {
if v < 0x8F9 {
230
} else {
if v < 0x8FB {
220
} else {
230
}
}
}
}
} else {
if v < 0x94E {
if v < 0x93D {
if v < 0x93C {
0
} else {
7
}
} else {
if v < 0x94D {
0
} else {
9
}
}
} else {
if v < 0x952 {
if v < 0x951 {
0
} else {
230
}
} else {
if v < 0x953 {
220
} else {
if v < 0x955 {
230
} else {
0
}
}
}
}
}
}
} else {
if v < 0xBCD {
if v < 0xA4E {
if v < 0x9FE {
if v < 0x9CD {
if v < 0x9BD {
7
} else {
0
}
} else {
if v < 0x9CE {
9
} else {
0
}
}
} else {
if v < 0xA3C {
if v < 0x9FF {
230
} else {
0
}
} else {
if v < 0xA3D {
7
} else {
if v < 0xA4D {
0
} else {
9
}
}
}
}
} else {
if v < 0xACE {
if v < 0xABD {
if v < 0xABC {
0
} else {
7
}
} else {
if v < 0xACD {
0
} else {
9
}
}
} else {
if v < 0xB3D {
if v < 0xB3C {
0
} else {
7
}
} else {
if v < 0xB4D {
0
} else {
if v < 0xB4E {
9
} else {
0
}
}
}
}
}
} else {
if v < 0xCBC {
if v < 0xC4D {
if v < 0xC3C {
if v < 0xBCE {
9
} else {
0
}
} else {
if v < 0xC3D {
7
} else {
0
}
}
} else {
if v < 0xC55 {
if v < 0xC4E {
9
} else {
0
}
} else {
if v < 0xC56 {
84
} else {
if v < 0xC57 {
91
} else {
0
}
}
}
}
} else {
if v < 0xD3B {
if v < 0xCCD {
if v < 0xCBD {
7
} else {
0
}
} else {
if v < 0xCCE {
9
} else {
0
}
}
} else {
if v < 0xD4D {
if v < 0xD3D {
9
} else {
0
}
} else {
if v < 0xD4E {
9
} else {
if v < 0xDCA {
0
} else {
9
}
}
}
}
}
}
}
} else {
if v < 0x1038 {
if v < 0xF3A {
if v < 0xEC8 {
if v < 0xE48 {
if v < 0xE3A {
if v < 0xE38 {
0
} else {
103
}
} else {
if v < 0xE3B {
9
} else {
0
}
}
} else {
if v < 0xEB8 {
if v < 0xE4C {
107
} else {
0
}
} else {
if v < 0xEBA {
118
} else {
if v < 0xEBB {
9
} else {
0
}
}
}
}
} else {
if v < 0xF35 {
if v < 0xF18 {
if v < 0xECC {
122
} else {
0
}
} else {
if v < 0xF1A {
220
} else {
0
}
}
} else {
if v < 0xF37 {
if v < 0xF36 {
220
} else {
0
}
} else {
if v < 0xF38 {
220
} else {
if v < 0xF39 {
0
} else {
216
}
}
}
}
}
} else {
if v < 0xF81 {
if v < 0xF74 {
if v < 0xF72 {
if v < 0xF71 {
0
} else {
129
}
} else {
if v < 0xF73 {
130
} else {
0
}
}
} else {
if v < 0xF7A {
if v < 0xF75 {
132
} else {
0
}
} else {
if v < 0xF7E {
130
} else {
if v < 0xF80 {
0
} else {
130
}
}
}
}
} else {
if v < 0xF86 {
if v < 0xF84 {
if v < 0xF82 {
0
} else {
230
}
} else {
if v < 0xF85 {
9
} else {
0
}
}
} else {
if v < 0xFC6 {
if v < 0xF88 {
230
} else {
0
}
} else {
if v < 0xFC7 {
220
} else {
if v < 0x1037 {
0
} else {
7
}
}
}
}
}
}
} else {
if v < 0x193A {
if v < 0x1734 {
if v < 0x108E {
if v < 0x103B {
if v < 0x1039 {
0
} else {
9
}
} else {
if v < 0x108D {
0
} else {
220
}
}
} else {
if v < 0x1360 {
if v < 0x135D {
0
} else {
230
}
} else {
if v < 0x1714 {
0
} else {
if v < 0x1716 {
9
} else {
0
}
}
}
}
} else {
if v < 0x17DD {
if v < 0x17D2 {
if v < 0x1735 {
9
} else {
0
}
} else {
if v < 0x17D3 {
9
} else {
0
}
}
} else {
if v < 0x18A9 {
if v < 0x17DE {
230
} else {
0
}
} else {
if v < 0x18AA {
228
} else {
if v < 0x1939 {
0
} else {
222
}
}
}
}
}
} else {
if v < 0x1A7D {
if v < 0x1A18 {
if v < 0x193C {
if v < 0x193B {
230
} else {
220
}
} else {
if v < 0x1A17 {
0
} else {
230
}
}
} else {
if v < 0x1A60 {
if v < 0x1A19 {
220
} else {
0
}
} else {
if v < 0x1A61 {
9
} else {
if v < 0x1A75 {
0
} else {
230
}
}
}
}
} else {
if v < 0x1AB5 {
if v < 0x1A80 {
if v < 0x1A7F {
0
} else {
220
}
} else {
if v < 0x1AB0 {
0
} else {
230
}
}
} else {
if v < 0x1ABD {
if v < 0x1ABB {
220
} else {
230
}
} else {
if v < 0x1ABE {
220
} else {
if v < 0x1ABF {
0
} else {
220
}
}
}
}
}
}
}
}
}
} else {
if v < 0x10A38 {
if v < 0x20EC {
if v < 0x1CF5 {
if v < 0x1BE7 {
if v < 0x1B44 {
if v < 0x1ACB {
if v < 0x1AC5 {
if v < 0x1AC3 {
230
} else {
220
}
} else {
if v < 0x1ACA {
230
} else {
220
}
}
} else {
if v < 0x1B34 {
if v < 0x1ACF {
230
} else {
0
}
} else {
if v < 0x1B35 {
7
} else {
0
}
}
}
} else {
if v < 0x1B6D {
if v < 0x1B6B {
if v < 0x1B45 {
9
} else {
0
}
} else {
if v < 0x1B6C {
230
} else {
220
}
}
} else {
if v < 0x1BAA {
if v < 0x1B74 {
230
} else {
0
}
} else {
if v < 0x1BAC {
9
} else {
if v < 0x1BE6 {
0
} else {
7
}
}
}
}
}
} else {
if v < 0x1CDA {
if v < 0x1C38 {
if v < 0x1BF4 {
if v < 0x1BF2 {
0
} else {
9
}
} else {
if v < 0x1C37 {
0
} else {
7
}
}
} else {
if v < 0x1CD3 {
if v < 0x1CD0 {
0
} else {
230
}
} else {
if v < 0x1CD4 {
0
} else {
if v < 0x1CD5 {
1
} else {
220
}
}
}
}
} else {
if v < 0x1CE2 {
if v < 0x1CE0 {
if v < 0x1CDC {
230
} else {
220
}
} else {
if v < 0x1CE1 {
230
} else {
0
}
}
} else {
if v < 0x1CED {
if v < 0x1CE9 {
1
} else {
0
}
} else {
if v < 0x1CEE {
220
} else {
if v < 0x1CF4 {
0
} else {
230
}
}
}
}
}
}
} else {
if v < 0x1DFC {
if v < 0x1DCE {
if v < 0x1DC2 {
if v < 0x1CFA {
if v < 0x1CF8 {
0
} else {
230
}
} else {
if v < 0x1DC0 {
0
} else {
230
}
}
} else {
if v < 0x1DCA {
if v < 0x1DC3 {
220
} else {
230
}
} else {
if v < 0x1DCB {
220
} else {
if v < 0x1DCD {
230
} else {
234
}
}
}
}
} else {
if v < 0x1DF6 {
if v < 0x1DD0 {
if v < 0x1DCF {
214
} else {
220
}
} else {
if v < 0x1DD1 {
202
} else {
230
}
}
} else {
if v < 0x1DF9 {
if v < 0x1DF7 {
232
} else {
228
}
} else {
if v < 0x1DFA {
220
} else {
if v < 0x1DFB {
218
} else {
230
}
}
}
}
}
} else {
if v < 0x20DB {
if v < 0x1E00 {
if v < 0x1DFE {
if v < 0x1DFD {
233
} else {
220
}
} else {
if v < 0x1DFF {
230
} else {
220
}
}
} else {
if v < 0x20D2 {
if v < 0x20D0 {
0
} else {
230
}
} else {
if v < 0x20D4 {
1
} else {
if v < 0x20D8 {
230
} else {
1
}
}
}
}
} else {
if v < 0x20E5 {
if v < 0x20E1 {
if v < 0x20DD {
230
} else {
0
}
} else {
if v < 0x20E2 {
230
} else {
0
}
}
} else {
if v < 0x20E8 {
if v < 0x20E7 {
1
} else {
230
}
} else {
if v < 0x20E9 {
220
} else {
if v < 0x20EA {
230
} else {
1
}
}
}
}
}
}
}
} else {
if v < 0xA954 {
if v < 0xA670 {
if v < 0x302A {
if v < 0x2CF2 {
if v < 0x20F1 {
if v < 0x20F0 {
220
} else {
230
}
} else {
if v < 0x2CEF {
0
} else {
230
}
}
} else {
if v < 0x2D80 {
if v < 0x2D7F {
0
} else {
9
}
} else {
if v < 0x2DE0 {
0
} else {
if v < 0x2E00 {
230
} else {
0
}
}
}
}
} else {
if v < 0x302E {
if v < 0x302C {
if v < 0x302B {
218
} else {
228
}
} else {
if v < 0x302D {
232
} else {
222
}
}
} else {
if v < 0x3099 {
if v < 0x3030 {
224
} else {
0
}
} else {
if v < 0x309B {
8
} else {
if v < 0xA66F {
0
} else {
230
}
}
}
}
}
} else {
if v < 0xA82C {
if v < 0xA6A0 {
if v < 0xA67E {
if v < 0xA674 {
0
} else {
230
}
} else {
if v < 0xA69E {
0
} else {
230
}
}
} else {
if v < 0xA6F2 {
if v < 0xA6F0 {
0
} else {
230
}
} else {
if v < 0xA806 {
0
} else {
if v < 0xA807 {
9
} else {
0
}
}
}
}
} else {
if v < 0xA8E0 {
if v < 0xA8C4 {
if v < 0xA82D {
9
} else {
0
}
} else {
if v < 0xA8C5 {
9
} else {
0
}
}
} else {
if v < 0xA92B {
if v < 0xA8F2 {
230
} else {
0
}
} else {
if v < 0xA92E {
220
} else {
if v < 0xA953 {
0
} else {
9
}
}
}
}
}
}
} else {
if v < 0xABED {
if v < 0xAAB5 {
if v < 0xA9C1 {
if v < 0xA9B4 {
if v < 0xA9B3 {
0
} else {
7
}
} else {
if v < 0xA9C0 {
0
} else {
9
}
}
} else {
if v < 0xAAB1 {
if v < 0xAAB0 {
0
} else {
230
}
} else {
if v < 0xAAB2 {
0
} else {
if v < 0xAAB4 {
230
} else {
220
}
}
}
}
} else {
if v < 0xAAC0 {
if v < 0xAAB9 {
if v < 0xAAB7 {
0
} else {
230
}
} else {
if v < 0xAABE {
0
} else {
230
}
}
} else {
if v < 0xAAC2 {
if v < 0xAAC1 {
0
} else {
230
}
} else {
if v < 0xAAF6 {
0
} else {
if v < 0xAAF7 {
9
} else {
0
}
}
}
}
}
} else {
if v < 0x101FE {
if v < 0xFE20 {
if v < 0xFB1E {
if v < 0xABEE {
9
} else {
0
}
} else {
if v < 0xFB1F {
26
} else {
0
}
}
} else {
if v < 0xFE2E {
if v < 0xFE27 {
230
} else {
220
}
} else {
if v < 0xFE30 {
230
} else {
if v < 0x101FD {
0
} else {
220
}
}
}
}
} else {
if v < 0x1037B {
if v < 0x102E1 {
if v < 0x102E0 {
0
} else {
220
}
} else {
if v < 0x10376 {
0
} else {
230
}
}
} else {
if v < 0x10A0E {
if v < 0x10A0D {
0
} else {
220
}
} else {
if v < 0x10A0F {
0
} else {
if v < 0x10A10 {
230
} else {
0
}
}
}
}
}
}
}
}
} else {
if v < 0x116B6 {
if v < 0x11133 {
if v < 0x10F4D {
if v < 0x10AE7 {
if v < 0x10A3F {
if v < 0x10A3A {
if v < 0x10A39 {
230
} else {
1
}
} else {
if v < 0x10A3B {
220
} else {
0
}
}
} else {
if v < 0x10AE5 {
if v < 0x10A40 {
9
} else {
0
}
} else {
if v < 0x10AE6 {
230
} else {
220
}
}
}
} else {
if v < 0x10EAD {
if v < 0x10D28 {
if v < 0x10D24 {
0
} else {
230
}
} else {
if v < 0x10EAB {
0
} else {
230
}
}
} else {
if v < 0x10F48 {
if v < 0x10F46 {
0
} else {
220
}
} else {
if v < 0x10F4B {
230
} else {
if v < 0x10F4C {
220
} else {
230
}
}
}
}
}
} else {
if v < 0x11070 {
if v < 0x10F84 {
if v < 0x10F82 {
if v < 0x10F51 {
220
} else {
0
}
} else {
if v < 0x10F83 {
230
} else {
220
}
}
} else {
if v < 0x10F86 {
if v < 0x10F85 {
230
} else {
220
}
} else {
if v < 0x11046 {
0
} else {
if v < 0x11047 {
9
} else {
0
}
}
}
}
} else {
if v < 0x110B9 {
if v < 0x1107F {
if v < 0x11071 {
9
} else {
0
}
} else {
if v < 0x11080 {
9
} else {
0
}
}
} else {
if v < 0x110BB {
if v < 0x110BA {
9
} else {
7
}
} else {
if v < 0x11100 {
0
} else {
if v < 0x11103 {
230
} else {
0
}
}
}
}
}
}
} else {
if v < 0x11366 {
if v < 0x11236 {
if v < 0x111C0 {
if v < 0x11173 {
if v < 0x11135 {
9
} else {
0
}
} else {
if v < 0x11174 {
7
} else {
0
}
}
} else {
if v < 0x111CA {
if v < 0x111C1 {
9
} else {
0
}
} else {
if v < 0x111CB {
7
} else {
if v < 0x11235 {
0
} else {
9
}
}
}
}
} else {
if v < 0x112EB {
if v < 0x112E9 {
if v < 0x11237 {
7
} else {
0
}
} else {
if v < 0x112EA {
7
} else {
9
}
}
} else {
if v < 0x1133D {
if v < 0x1133B {
0
} else {
7
}
} else {
if v < 0x1134D {
0
} else {
if v < 0x1134E {
9
} else {
0
}
}
}
}
}
} else {
if v < 0x1145F {
if v < 0x11442 {
if v < 0x11370 {
if v < 0x1136D {
230
} else {
0
}
} else {
if v < 0x11375 {
230
} else {
0
}
}
} else {
if v < 0x11446 {
if v < 0x11443 {
9
} else {
0
}
} else {
if v < 0x11447 {
7
} else {
if v < 0x1145E {
0
} else {
230
}
}
}
}
} else {
if v < 0x115BF {
if v < 0x114C3 {
if v < 0x114C2 {
0
} else {
9
}
} else {
if v < 0x114C4 {
7
} else {
0
}
}
} else {
if v < 0x115C1 {
if v < 0x115C0 {
9
} else {
7
}
} else {
if v < 0x1163F {
0
} else {
if v < 0x11640 {
9
} else {
0
}
}
}
}
}
}
}
} else {
if v < 0x1D165 {
if v < 0x11A99 {
if v < 0x1193F {
if v < 0x1172C {
if v < 0x116B8 {
if v < 0x116B7 {
9
} else {
7
}
} else {
if v < 0x1172B {
0
} else {
9
}
}
} else {
if v < 0x1183A {
if v < 0x11839 {
0
} else {
9
}
} else {
if v < 0x1183B {
7
} else {
if v < 0x1193D {
0
} else {
9
}
}
}
}
} else {
if v < 0x119E1 {
if v < 0x11944 {
if v < 0x11943 {
0
} else {
7
}
} else {
if v < 0x119E0 {
0
} else {
9
}
}
} else {
if v < 0x11A35 {
if v < 0x11A34 {
0
} else {
9
}
} else {
if v < 0x11A47 {
0
} else {
if v < 0x11A48 {
9
} else {
0
}
}
}
}
}
} else {
if v < 0x11D98 {
if v < 0x11D42 {
if v < 0x11C3F {
if v < 0x11A9A {
9
} else {
0
}
} else {
if v < 0x11C40 {
9
} else {
0
}
}
} else {
if v < 0x11D44 {
if v < 0x11D43 {
7
} else {
0
}
} else {
if v < 0x11D46 {
9
} else {
if v < 0x11D97 {
0
} else {
9
}
}
}
}
} else {
if v < 0x16B37 {
if v < 0x16AF5 {
if v < 0x16AF0 {
0
} else {
1
}
} else {
if v < 0x16B30 {
0
} else {
230
}
}
} else {
if v < 0x16FF2 {
if v < 0x16FF0 {
0
} else {
6
}
} else {
if v < 0x1BC9E {
0
} else {
if v < 0x1BC9F {
1
} else {
0
}
}
}
}
}
}
} else {
if v < 0x1E019 {
if v < 0x1D18A {
if v < 0x1D16E {
if v < 0x1D16A {
if v < 0x1D167 {
216
} else {
1
}
} else {
if v < 0x1D16D {
0
} else {
226
}
}
} else {
if v < 0x1D17B {
if v < 0x1D173 {
216
} else {
0
}
} else {
if v < 0x1D183 {
220
} else {
if v < 0x1D185 {
0
} else {
230
}
}
}
}
} else {
if v < 0x1D242 {
if v < 0x1D1AA {
if v < 0x1D18C {
220
} else {
0
}
} else {
if v < 0x1D1AE {
230
} else {
0
}
}
} else {
if v < 0x1E000 {
if v < 0x1D245 {
230
} else {
0
}
} else {
if v < 0x1E007 {
230
} else {
if v < 0x1E008 {
0
} else {
230
}
}
}
}
}
} else {
if v < 0x1E2AE {
if v < 0x1E025 {
if v < 0x1E022 {
if v < 0x1E01B {
0
} else {
230
}
} else {
if v < 0x1E023 {
0
} else {
230
}
}
} else {
if v < 0x1E02B {
if v < 0x1E026 {
0
} else {
230
}
} else {
if v < 0x1E130 {
0
} else {
if v < 0x1E137 {
230
} else {
0
}
}
}
}
} else {
if v < 0x1E8D0 {
if v < 0x1E2EC {
if v < 0x1E2AF {
230
} else {
0
}
} else {
if v < 0x1E2F0 {
230
} else {
0
}
}
} else {
if v < 0x1E944 {
if v < 0x1E8D7 {
220
} else {
0
}
} else {
if v < 0x1E94A {
230
} else {
if v < 0x1E94B {
7
} else {
0
}
}
}
}
}
}
}
}
}
}
}

/// The canonical combining class of `v` (see `combining_class`).
pub fn combining_class_of(v: u32) -> (r: u8)
    ensures
        r == combining_class(v),
{
if v < 0x1AC1 {
if v < 0x82E {
if v < 0x5C7 {
if v < 0x591 {
if v < 0x34A {
if v < 0x323 {
if v < 0x31A {
if v < 0x315 {
if v < 0x300 {
0
} else {
230
}
} else {
if v < 0x316 {
232
} else {
220
}
}
} else {
if v < 0x31C {
if v < 0x31B {
232
} else {
216
}
} else {
if v < 0x321 {
220
} else {
202
}
}
}
} else {
if v < 0x339 {
if v < 0x329 {
if v < 0x327 {
220
} else {
202
}
} else {
if v < 0x334 {
220
} else {
1
}
}
} else {
if v < 0x345 {
if v < 0x33D {
220
} else {
230
}
} else {
if v < 0x346 {
240
} else {
if v < 0x347 {
230
} else {
220
}
}
}
}
}
} else {
if v < 0x35C {
if v < 0x353 {
if v < 0x34F {
if v < 0x34D {
230
} else {
220
}
} else {
if v < 0x350 {
0
} else {
230
}
}
} else {
if v < 0x358 {
if v < 0x357 {
220
} else {
230
}
} else {
if v < 0x359 {
232
} else {
if v < 0x35B {
220
} else {
230
}
}
}
}
} else {
if v < 0x362 {
if v < 0x35F {
if v < 0x35D {
233
} else {
234
}
} else {
if v < 0x360 {
233
} else {
234
}
}
} else {
if v < 0x370 {
if v < 0x363 {
233
} else {
230
}
} else {
if v < 0x483 {
0
} else {
if v < 0x488 {
230
} else {
0
}
}
}
}
}
}
} else {
if v < 0x5B4 {
if v < 0x5AA {
if v < 0x59A {
if v < 0x596 {
if v < 0x592 {
220
} else {
230
}
} else {
if v < 0x597 {
220
} else {
230
}
}
} else {
if v < 0x59C {
if v < 0x59B {
222
} else {
220
}
} else {
if v < 0x5A2 {
230
} else {
if v < 0x5A8 {
220
} else {
230
}
}
}
}
} else {
if v < 0x5AF {
if v < 0x5AD {
if v < 0x5AB {
220
} else {
230
}
} else {
if v < 0x5AE {
222
} else {
228
}
}
} else {
if v < 0x5B1 {
if v < 0x5B0 {
230
} else {
10
}
} else {
if v < 0x5B2 {
11
} else {
if v < 0x5B3 {
12
} else {
13
}
}
}
}
}
} else {
if v < 0x5BE {
if v < 0x5B8 {
if v < 0x5B6 {
if v < 0x5B5 {
14
} else {
15
}
} else {
if v < 0x5B7 {
16
} else {
17
}
}
} else {
if v < 0x5BB {
if v < 0x5B9 {
18
} else {
19
}
} else {
if v < 0x5BC {
20
} else {
if v < 0x5BD {
21
} else {
22
}
}
}
}
} else {
if v < 0x5C2 {
if v < 0x5C0 {
if v < 0x5BF {
0
} else {
23
}
} else {
if v < 0x5C1 {
0
} else {
24
}
}
} else {
if v < 0x5C4 {
if v < 0x5C3 {
25
} else {
0
}
} else {
if v < 0x5C5 {
230
} else {
if v < 0x5C6 {
220
} else {
0
}
}
}
}
}
}
}
} else {
if v < 0x6EE {
if v < 0x657 {
if v < 0x64C {
if v < 0x619 {
if v < 0x610 {
if v < 0x5C8 {
18
} else {
0
}
} else {
if v < 0x618 {
230
} else {
30
}
}
} else {
if v < 0x61B {
if v < 0x61A {
31
} else {
32
}
} else {
if v < 0x64B {
0
} else {
27
}
}
}
} else {
if v < 0x650 {
if v < 0x64E {
if v < 0x64D {
28
} else {
29
}
} else {
if v < 0x64F {
30
} else {
31
}
}
} else {
if v < 0x652 {
if v < 0x651 {
32
} else {
33
}
} else {
if v < 0x653 {
34
} else {
if v < 0x655 {
230
} else {
220
}
}
}
}
}
} else {
if v < 0x6DF {
if v < 0x660 {
if v < 0x65D {
if v < 0x65C {
230
} else {
220
}
} else {
if v < 0x65F {
230
} else {
220
}
}
} else {
if v < 0x671 {
if v < 0x670 {
0
} else {
35
}
} else {
if v < 0x6D6 {
0
} else {
if v < 0x6DD {
230
} else {
0
}
}
}
}
} else {
if v < 0x6E7 {
if v < 0x6E4 {
if v < 0x6E3 {
230
} else {
220
}
} else {
if v < 0x6E5 {
230
} else {
0
}
}
} else {
if v < 0x6EA {
if v < 0x6E9 {
230
} else {
0
}
} else {
if v < 0x6EB {
220
} else {
if v < 0x6ED {
230
} else {
220
}
}
}
}
}
}
} else {
if v < 0x746 {
if v < 0x73A {
if v < 0x731 {
if v < 0x712 {
if v < 0x711 {
0
} else {
36
}
} else {
if v < 0x730 {
0
} else {
230
}
}
} else {
if v < 0x734 {
if v < 0x732 {
220
} else {
230
}
} else {
if v < 0x735 {
220
} else {
if v < 0x737 {
230
} else {
220
}
}
}
}
} else {
if v < 0x73F {
if v < 0x73D {
if v < 0x73B {
230
} else {
220
}
} else {
if v < 0x73E {
230
} else {
220
}
}
} else {
if v < 0x743 {
if v < 0x742 {
230
} else {
220
}
} else {
if v < 0x744 {
230
} else {
if v < 0x745 {
220
} else {
230
}
}
}
}
}
} else {
if v < 0x7FD {
if v < 0x74B {
if v < 0x748 {
if v < 0x747 {
220
} else {
230
}
} else {
if v < 0x749 {
220
} else {
230
}
}
} else {
if v < 0x7F2 {
if v < 0x7EB {
0
} else {
230
}
} else {
if v < 0x7F3 {
220
} else {
if v < 0x7F4 {
230
} else {
0
}
}
}
}
} else {
if v < 0x81B {
if v < 0x816 {
if v < 0x7FE {
220
} else {
0
}
} else {
if v < 0x81A {
230
} else {
0
}
}
} else {
if v < 0x825 {
if v < 0x824 {
230
} else {
0
}
} else {
if v < 0x828 {
230
} else {
if v < 0x829 {
0
} else {
230
}
}
}
}
}
}
}
}
} else {
if v < 0xDCB {
if v < 0x9BC {
if v < 0x8ED {
if v < 0x8CF {
if v < 0x899 {
if v < 0x85C {
if v < 0x859 {
0
} else {
220
}
} else {
if v < 0x898 {
0
} else {
230
}
}
} else {
if v < 0x8A0 {
if v < 0x89C {
220
} else {
230
}
} else {
if v < 0x8CA {
0
} else {
230
}
}
}
} else {
if v < 0x8E4 {
if v < 0x8E2 {
if v < 0x8D4 {
220
} else {
230
}
} else {
if v < 0x8E3 {
0
} else {
220
}
}
} else {
if v < 0x8E7 {
if v < 0x8E6 {
230
} else {
220
}
} else {
if v < 0x8E9 {
230
} else {
if v < 0x8EA {
220
} else {
230
}
}
}
}
}
} else {
if v < 0x900 {
if v < 0x8F3 {
if v < 0x8F1 {
if v < 0x8F0 {
220
} else {
27
}
} else {
if v < 0x8F2 {
28
} else {
29
}
}
} else {
if v < 0x8F7 {
if v < 0x8F6 {
230
} else {
220
}
} else {
if v < 0x8F9 {
230
} else {
if v < 0x8FB {
220
} else {
230
}
}
}
}
} else {
if v < 0x94E {
if v < 0x93D {
if v < 0x93C {
0
} else {
7
}
} else {
if v < 0x94D {
0
} else {
9
}
}
} else {
if v < 0x952 {
if v < 0x951 {
0
} else {
230
}
} else {
if v < 0x953 {
220
} else {
if v < 0x955 {
230
} else {
0
}
}
}
}
}
}
} else {
if v < 0xBCD {
if v < 0xA4E {
if v < 0x9FE {
if v < 0x9CD {
if v < 0x9BD {
7
} else {
0
}
} else {
if v < 0x9CE {
9
} else {
0
}
}
} else {
if v < 0xA3C {
if v < 0x9FF {
230
} else {
0
}
} else {
if v < 0xA3D {
7
} else {
if v < 0xA4D {
0
} else {
9
}
}
}
}
} else {
if v < 0xACE {
if v < 0xABD {
if v < 0xABC {
0
} else {
7
}
} else {
if v < 0xACD {
0
} else {
9
}
}
} else {
if v < 0xB3D {
if v < 0xB3C {
0
} else {
7
}
} else {
if v < 0xB4D {
0
} else {
if v < 0xB4E {
9
} else {
0
}
}
}
}
}
} else {
if v < 0xCBC {
if v < 0xC4D {
if v < 0xC3C {
if v < 0xBCE {
9
} else {
0
}
} else {
if v < 0xC3D {
7
} else {
0
}
}
} else {
if v < 0xC55 {
if v < 0xC4E {
9
} else {
0
}
} else {
if v < 0xC56 {
84
} else {
if v < 0xC57 {
91
} else {
0
}
}
}
}
} else {
if v < 0xD3B {
if v < 0xCCD {
if v < 0xCBD {
7
} else {
0
}
} else {
if v < 0xCCE {
9
} else {
0
}
}
} else {
if v < 0xD4D {
if v < 0xD3D {
9
} else {
0
}
} else {
if v < 0xD4E {
9
} else {
if v < 0xDCA {
0
} else {
9
}
}
}
}
}
}
}
} else {
if v < 0x1038 {
if v < 0xF3A {
if v < 0xEC8 {
if v < 0xE48 {
if v < 0xE3A {
if v < 0xE38 {
0
} else {
103
}
} else {
if v < 0xE3B {
9
} else {
0
}
}
} else {
if v < 0xEB8 {
if v < 0xE4C {
107
} else {
0
}
} else {
if v < 0xEBA {
118
} else {
if v < 0xEBB {
9
} else {
0
}
}
}
}
} else {
if v < 0xF35 {
if v < 0xF18 {
if v < 0xECC {
122
} else {
0
}
} else {
if v < 0xF1A {
220
} else {
0
}
}
} else {
if v < 0xF37 {
if v < 0xF36 {
220
} else {
0
}
} else {
if v < 0xF38 {
220
} else {
if v < 0xF39 {
0
} else {
216
}
}
}
}
}
} else {
if v < 0xF81 {
if v < 0xF74 {
if v < 0xF72 {
if v < 0xF71 {
0
} else {
129
}
} else {
if v < 0xF73 {
130
} else {
0
}
}
} else {
if v < 0xF7A {
if v < 0xF75 {
132
} else {
0
}
} else {
if v < 0xF7E {
130
} else {
if v < 0xF80 {
0
} else {
130
}
}
}
}
} else {
if v < 0xF86 {
if v < 0xF84 {
if v < 0xF82 {
0
} else {
230
}
} else {
if v < 0xF85 {
9
} else {
0
}
}
} else {
if v < 0xFC6 {
if v < 0xF88 {
230
} else {
0
}
} else {
if v < 0xFC7 {
220
} else {
if v < 0x1037 {
0
} else {
7
}
}
}
}
}
}
} else {
if v < 0x193A {
if v < 0x1734 {
if v < 0x108E {
if v < 0x103B {
if v < 0x1039 {
0
} else {
9
}
} else {
if v < 0x108D {
0
} else {
220
}
}
} else {
if v < 0x1360 {
if v < 0x135D {
0
} else {
230
}
} else {
if v < 0x1714 {
0
} else {
if v < 0x1716 {
9
} else {
0
}
}
}
}
} else {
if v < 0x17DD {
if v < 0x17D2 {
if v < 0x1735 {
9
} else {
0
}
} else {
if v < 0x17D3 {
9
} else {
0
}
}
} else {
if v < 0x18A9 {
if v < 0x17DE {
230
} else {
0
}
} else {
if v < 0x18AA {
228
} else {
if v < 0x1939 {
0
} else {
222
}
}
}
}
}
} else {
if v < 0x1A7D {
if v < 0x1A18 {
if v < 0x193C {
if v < 0x193B {
230
} else {
220
}
} else {
if v < 0x1A17 {
0
} else {
230
}
}
} else {
if v < 0x1A60 {
if v < 0x1A19 {
220
} else {
0
}
} else {
if v < 0x1A61 {
9
} else {
if v < 0x1A75 {
0
} else {
230
}
}
}
}
} else {
if v < 0x1AB5 {
if v < 0x1A80 {
if v < 0x1A7F {
0
} else {
220
}
} else {
if v < 0x1AB0 {
0
} else {
230
}
}
} else {
if v < 0x1ABD {
if v < 0x1ABB {
220
} else {
230
}
} else {
if v < 0x1ABE {
220
} else {
if v < 0x1ABF {
0
} else {
220
}
}
}
}
}
}
}
}
}
} else {
if v < 0x10A38 {
if v < 0x20EC {
if v < 0x1CF5 {
if v < 0x1BE7 {
if v < 0x1B44 {
if v < 0x1ACB {
if v < 0x1AC5 {
if v < 0x1AC3 {
230
} else {
220
}
} else {
if v < 0x1ACA {
230
} else {
220
}
}
} else {
if v < 0x1B34 {
if v < 0x1ACF {
230
} else {
0
}
} else {
if v < 0x1B35 {
7
} else {
0
}
}
}
} else {
if v < 0x1B6D {
if v < 0x1B6B {
if v < 0x1B45 {
9
} else {
0
}
} else {
if v < 0x1B6C {
230
} else {
220
}
}
} else {
if v < 0x1BAA {
if v < 0x1B74 {
230
} else {
0
}
} else {
if v < 0x1BAC {
9
} else {
if v < 0x1BE6 {
0
} else {
7
}
}
}
}
}
} else {
if v < 0x1CDA {
if v < 0x1C38 {
if v < 0x1BF4 {
if v < 0x1BF2 {
0
} else {
9
}
} else {
if v < 0x1C37 {
0
} else {
7
}
}
} else {
if v < 0x1CD3 {
if v < 0x1CD0 {
0
} else {
230
}
} else {
if v < 0x1CD4 {
0
} else {
if v < 0x1CD5 {
1
} else {
220
}
}
}
}
} else {
if v < 0x1CE2 {
if v < 0x1CE0 {
if v < 0x1CDC {
230
} else {
220
}
} else {
if v < 0x1CE1 {
230
} else {
0
}
}
} else {
if v < 0x1CED {
if v < 0x1CE9 {
1
} else {
0
}
} else {
if v < 0x1CEE {
220
} else {
if v < 0x1CF4 {
0
} else {
230
}
}
}
}
}
}
} else {
if v < 0x1DFC {
if v < 0x1DCE {
if v < 0x1DC2 {
if v < 0x1CFA {
if v < 0x1CF8 {
0
} else {
230
}
} else {
if v < 0x1DC0 {
0
} else {
230
}
}
} else {
if v < 0x1DCA {
if v < 0x1DC3 {
220
} else {
230
}
} else {
if v < 0x1DCB {
220
} else {
if v < 0x1DCD {
230
} else {
234
}
}
}
}
} else {
if v < 0x1DF6 {
if v < 0x1DD0 {
if v < 0x1DCF {
214
} else {
220
}
} else {
if v < 0x1DD1 {
202
} else {
230
}
}
} else {
if v < 0x1DF9 {
if v < 0x1DF7 {
232
} else {
228
}
} else {
if v < 0x1DFA {
220
} else {
if v < 0x1DFB {
218
} else {
230
}
}
}
}
}
} else {
if v < 0x20DB {
if v < 0x1E00 {
if v < 0x1DFE {
if v < 0x1DFD {
233
} else {
220
}
} else {
if v < 0x1DFF {
230
} else {
220
}
}
} else {
if v < 0x20D2 {
if v < 0x20D0 {
0
} else {
230
}
} else {
if v < 0x20D4 {
1
} else {
if v < 0x20D8 {
230
} else {
1
}
}
}
}
} else {
if v < 0x20E5 {
if v < 0x20E1 {
if v < 0x20DD {
230
} else {
0
}
} else {
if v < 0x20E2 {
230
} else {
0
}
}
} else {
if v < 0x20E8 {
if v < 0x20E7 {
1
} else {
230
}
} else {
if v < 0x20E9 {
220
} else {
if v < 0x20EA {
230
} else {
1
}
}
}
}
}
}
}
} else {
if v < 0xA954 {
if v < 0xA670 {
if v < 0x302A {
if v < 0x2CF2 {
if v < 0x20F1 {
if v < 0x20F0 {
220
} else {
230
}
} else {
if v < 0x2CEF {
0
} else {
230
}
}
} else {
if v < 0x2D80 {
if v < 0x2D7F {
0
} else {
9
}
} else {
if v < 0x2DE0 {
0
} else {
if v < 0x2E00 {
230
} else {
0
}
}
}
}
} else {
if v < 0x302E {
if v < 0x302C {
if v < 0x302B {
218
} else {
228
}
} else {
if v < 0x302D {
232
} else {
222
}
}
} else {
if v < 0x3099 {
if v < 0x3030 {
224
} else {
0
}
} else {
if v < 0x309B {
8
} else {
if v < 0xA66F {
0
} else {
230
}
}
}
}
}
} else {
if v < 0xA82C {
if v < 0xA6A0 {
if v < 0xA67E {
if v < 0xA674 {
0
} else {
230
}
} else {
if v < 0xA69E {
0
} else {
230
}
}
} else {
if v < 0xA6F2 {
if v < 0xA6F0 {
0
} else {
230
}
} else {
if v < 0xA806 {
0
} else {
if v < 0xA807 {
9
} else {
0
}
}
}
}
} else {
if v < 0xA8E0 {
if v < 0xA8C4 {
if v < 0xA82D {
9
} else {
0
}
} else {
if v < 0xA8C5 {
9
} else {
0
}
}
} else {
if v < 0xA92B {
if v < 0xA8F2 {
230
} else {
0
}
} else {
if v < 0xA92E {
220
} else {
if v < 0xA953 {
0
} else {
9
}
}
}
}
}
}
} else {
if v < 0xABED {
if v < 0xAAB5 {
if v < 0xA9C1 {
if v < 0xA9B4 {
if v < 0xA9B3 {
0
} else {
7
}
} else {
if v < 0xA9C0 {
0
} else {
9
}
}
} else {
if v < 0xAAB1 {
if v < 0xAAB0 {
0
} else {
230
}
} else {
if v < 0xAAB2 {
0
} else {
if v < 0xAAB4 {
230
} else {
220
}
}
}
}
} else {
if v < 0xAAC0 {
if v < 0xAAB9 {
if v < 0xAAB7 {
0
} else {
230
}
} else {
if v < 0xAABE {
0
} else {
230
}
}
} else {
if v < 0xAAC2 {
if v < 0xAAC1 {
0
} else {
230
}
} else {
if v < 0xAAF6 {
0
} else {
if v < 0xAAF7 {
9
} else {
0
}
}
}
}
}
} else {
if v < 0x101FE {
if v < 0xFE20 {
if v < 0xFB1E {
if v < 0xABEE {
9
} else {
0
}
} else {
if v < 0xFB1F {
26
} else {
0
}
}
} else {
if v < 0xFE2E {
if v < 0xFE27 {
230
} else {
220
}
} else {
if v < 0xFE30 {
230
} else {
if v < 0x101FD {
0
} else {
220
}
}
}
}
} else {
if v < 0x1037B {
if v < 0x102E1 {
if v < 0x102E0 {
0
} else {
220
}
} else {
if v < 0x10376 {
0
} else {
230
}
}
} else {
if v < 0x10A0E {
if v < 0x10A0D {
0
} else {
220
}
} else {
if v < 0x10A0F {
0
} else {
if v < 0x10A10 {
230
} else {
0
}
}
}
}
}
}
}
}
} else {
if v < 0x116B6 {
if v < 0x11133 {
if v < 0x10F4D {
if v < 0x10AE7 {
if v < 0x10A3F {
if v < 0x10A3A {
if v < 0x10A39 {
230
} else {
1
}
} else {
if v < 0x10A3B {
220
} else {
0
}
}
} else {
if v < 0x10AE5 {
if v < 0x10A40 {
9
} else {
0
}
} else {
if v < 0x10AE6 {
230
} else {
220
}
}
}
} else {
if v < 0x10EAD {
if v < 0x10D28 {
if v < 0x10D24 {
0
} else {
230
}
} else {
if v < 0x10EAB {
0
} else {
230
}
}
} else {
if v < 0x10F48 {
if v < 0x10F46 {
0
} else {
220
}
} else {
if v < 0x10F4B {
230
} else {
if v < 0x10F4C {
220
} else {
230
}
}
}
}
}
} else {
if v < 0x11070 {
if v < 0x10F84 {
if v < 0x10F82 {
if v < 0x10F51 {
220
} else {
0
}
} else {
if v < 0x10F83 {
230
} else {
220
}
}
} else {
if v < 0x10F86 {
if v < 0x10F85 {
230
} else {
220
}
} else {
if v < 0x11046 {
0
} else {
if v < 0x11047 {
9
} else {
0
}
}
}
}
} else {
if v < 0x110B9 {
if v < 0x1107F {
if v < 0x11071 {
9
} else {
0
}
} else {
if v < 0x11080 {
9
} else {
0
}
}
} else {
if v < 0x110BB {
if v < 0x110BA {
9
} else {
7
}
} else {
if v < 0x11100 {
0
} else {
if v < 0x11103 {
230
} else {
0
}
}
}
}
}
}
} else {
if v < 0x11366 {
if v < 0x11236 {
if v < 0x111C0 {
if v < 0x11173 {
if v < 0x11135 {
9
} else {
0
}
} else {
if v < 0x11174 {
7
} else {
0
}
}
} else {
if v < 0x111CA {
if v < 0x111C1 {
9
} else {
0
}
} else {
if v < 0x111CB {
7
} else {
if v < 0x11235 {
0
} else {
9
}
}
}
}
} else {
if v < 0x112EB {
if v < 0x112E9 {
if v < 0x11237 {
7
} else {
0
}
} else {
if v < 0x112EA {
7
} else {
9
}
}
} else {
if v < 0x1133D {
if v < 0x1133B {
0
} else {
7
}
} else {
if v < 0x1134D {
0
} else {
if v < 0x1134E {
9
} else {
0
}
}
}
}
}
} else {
if v < 0x1145F {
if v < 0x11442 {
if v < 0x11370 {
if v < 0x1136D {
230
} else {
0
}
} else {
if v < 0x11375 {
230
} else {
0
}
}
} else {
if v < 0x11446 {
if v < 0x11443 {
9
} else {
0
}
} else {
if v < 0x11447 {
7
} else {
if v < 0x1145E {
0
} else {
230
}
}
}
}
} else {
if v < 0x115BF {
if v < 0x114C3 {
if v < 0x114C2 {
0
} else {
9
}
} else {
if v < 0x114C4 {
7
} else {
0
}
}
} else {
if v < 0x115C1 {
if v < 0x115C0 {
9
} else {
7
}
} else {
if v < 0x1163F {
0
} else {
if v < 0x11640 {
9
} else {
0
}
}
}
}
}
}
}
} else {
if v < 0x1D165 {
if v < 0x11A99 {
if v < 0x1193F {
if v < 0x1172C {
if v < 0x116B8 {
if v < 0x116B7 {
9
} else {
7
}
} else {
if v < 0x1172B {
0
} else {
9
}
}
} else {
if v < 0x1183A {
if v < 0x11839 {
0
} else {
9
}
} else {
if v < 0x1183B {
7
} else {
if v < 0x1193D {
0
} else {
9
}
}
}
}
} else {
if v < 0x119E1 {
if v < 0x11944 {
if v < 0x11943 {
0
} else {
7
}
} else {
if v < 0x119E0 {
0
} else {
9
}
}
} else {
if v < 0x11A35 {
if v < 0x11A34 {
0
} else {
9
}
} else {
if v < 0x11A47 {
0
} else {
if v < 0x11A48 {
9
} else {
0
}
}
}
}
}
} else {
if v < 0x11D98 {
if v < 0x11D42 {
if v < 0x11C3F {
if v < 0x11A9A {
9
} else {
0
}
} else {
if v < 0x11C40 {
9
} else {
0
}
}
} else {
if v < 0x11D44 {
if v < 0x11D43 {
7
} else {
0
}
} else {
if v < 0x11D46 {
9
} else {
if v < 0x11D97 {
0
} else {
9
}
}
}
}
} else {
if v < 0x16B37 {
if v < 0x16AF5 {
if v < 0x16AF0 {
0
} else {
1
}
} else {
if v < 0x16B30 {
0
} else {
230
}
}
} else {
if v < 0x16FF2 {
if v < 0x16FF0 {
0
} else {
6
}
} else {
if v < 0x1BC9E {
0
} else {
if v < 0x1BC9F {
1
} else {
0
}
}
}
}
}
}
} else {
if v < 0x1E019 {
if v < 0x1D18A {
if v < 0x1D16E {
if v < 0x1D16A {
if v < 0x1D167 {
216
} else {
1
}
} else {
if v < 0x1D16D {
0
} else {
226
}
}
} else {
if v < 0x1D17B {
if v < 0x1D173 {
216
} else {
0
}
} else {
if v < 0x1D183 {
220
} else {
if v < 0x1D185 {
0
} else {
230
}
}
}
}
} else {
if v < 0x1D242 {
if v < 0x1D1AA {
if v < 0x1D18C {
220
} else {
0
}
} else {
if v < 0x1D1AE {
230
} else {
0
}
}
} else {
if v < 0x1E000 {
if v < 0x1D245 {
230
} else {
0
}
} else {
if v < 0x1E007 {
230
} else {
if v < 0x1E008 {
0
} else {
230
}
}
}
}
}
} else {
if v < 0x1E2AE {
if v < 0x1E025 {
if v < 0x1E022 {
if v < 0x1E01B {
0
} else {
230
}
} else {
if v < 0x1E023 {
0
} else {
230
}
}
} else {
if v < 0x1E02B {
if v < 0x1E026 {
0
} else {
230
}
} else {
if v < 0x1E130 {
0
} else {
if v < 0x1E137 {
230
} else {
0
}
}
}
}
} else {
if v < 0x1E8D0 {
if v < 0x1E2EC {
if v < 0x1E2AF {
230
} else {
0
}
} else {
if v < 0x1E2F0 {
230
} else {
0
}
}
} else {
if v < 0x1E944 {
if v < 0x1E8D7 {
220
} else {
0
}
} else {
if v < 0x1E94A {
230
} else {
if v < 0x1E94B {
7
} else {
0
}
}
}
}
}
}
}
}
}
}
}

/// The full canonical decomposition of the scalar value `v`, canonically
/// ordered, where it has one (Hangul syllables excepted).
pub closed spec fn decomposition(v: u32) -> Option<Seq<char>> {
if v < 0xF91F {
if v < 0x1E64 {
if v < 0x37E {
if v < 0x15C {
if v < 0x10B {
if v < 0xE7 {
if v < 0xD2 {
if v < 0xC9 {
if v < 0xC4 {
if v < 0xC2 {
if v < 0xC1 {
if v == 0xC0 {
Some(seq!['\u{41}', '\u{300}'])
} else {
None
}
} else {
if v == 0xC1 {
Some(seq!['\u{41}', '\u{301}'])
} else {
None
}
}
} else {
if v < 0xC3 {
if v == 0xC2 {
Some(seq!['\u{41}', '\u{302}'])
} else {
None
}
} else {
if v == 0xC3 {
Some(seq!['\u{41}', '\u{303}'])
} else {
None
}
}
}
} else {
if v < 0xC7 {
if v < 0xC5 {
if v == 0xC4 {
Some(seq!['\u{41}', '\u{308}'])
} else {
None
}
} else {
if v == 0xC5 {
Some(seq!['\u{41}', '\u{30A}'])
} else {
None
}
}
} else {
if v < 0xC8 {
if v == 0xC7 {
Some(seq!['\u{43}', '\u{327}'])
} else {
None
}
} else {
if v == 0xC8 {
Some(seq!['\u{45}', '\u{300}'])
} else {
None
}
}
}
}
} else {
if v < 0xCD {
if v < 0xCB {
if v < 0xCA {
if v == 0xC9 {
Some(seq!['\u{45}', '\u{301}'])
} else {
None
}
} else {
if v == 0xCA {
Some(seq!['\u{45}', '\u{302}'])
} else {
None
}
}
} else {
if v < 0xCC {
if v == 0xCB {
Some(seq!['\u{45}', '\u{308}'])
} else {
None
}
} else {
if v == 0xCC {
Some(seq!['\u{49}', '\u{300}'])
} else {
None
}
}
}
} else {
if v < 0xCF {
if v < 0xCE {
if v == 0xCD {
Some(seq!['\u{49}', '\u{301}'])
} else {
None
}
} else {
if v == 0xCE {
Some(seq!['\u{49}', '\u{302}'])
} else {
None
}
}
} else {
if v < 0xD1 {
if v == 0xCF {
Some(seq!['\u{49}', '\u{308}'])
} else {
None
}
} else {
if v == 0xD1 {
Some(seq!['\u{4E}', '\u{303}'])
} else {
None
}
}
}
}
}
} else {
if v < 0xDC {
if v < 0xD6 {
if v < 0xD4 {
if v < 0xD3 {
if v == 0xD2 {
Some(seq!['\u{4F}', '\u{300}'])
} else {
None
}
} else {
if v == 0xD3 {
Some(seq!['\u{4F}', '\u{301}'])
} else {
None
}
}
} else {
if v < 0xD5 {
if v == 0xD4 {
Some(seq!['\u{4F}', '\u{302}'])
} else {
None
}
} else {
if v == 0xD5 {
Some(seq!['\u{4F}', '\u{303}'])
} else {
None
}
}
}
} else {
if v < 0xDA {
if v < 0xD9 {
if v == 0xD6 {
Some(seq!['\u{4F}', '\u{308}'])
} else {
None
}
} else {
if v == 0xD9 {
Some(seq!['\u{55}', '\u{300}'])
} else {
None
}
}
} else {
if v < 0xDB {
if v == 0xDA {
Some(seq!['\u{55}', '\u{301}'])
} else {
None
}
} else {
if v == 0xDB {
Some(seq!['\u{55}', '\u{302}'])
} else {
None
}
}
}
}
} else {
if v < 0xE2 {
if v < 0xE0 {
if v < 0xDD {
if v == 0xDC {
Some(seq!['\u{55}', '\u{308}'])
} else {
None
}
} else {
if v == 0xDD {
Some(seq!['\u{59}', '\u{301}'])
} else {
None
}
}
} else {
if v < 0xE1 {
if v == 0xE0 {
Some(seq!['\u{61}', '\u{300}'])
} else {
None
}
} else {
if v == 0xE1 {
Some(seq!['\u{61}', '\u{301}'])
} else {
None
}
}
}
} else {
if v < 0xE4 {
if v < 0xE3 {
if v == 0xE2 {
Some(seq!['\u{61}', '\u{302}'])
} else {
None
}
} else {
if v == 0xE3 {
Some(seq!['\u{61}', '\u{303}'])
} else {
None
}
}
} else {
if v < 0xE5 {
if v == 0xE4 {
Some(seq!['\u{61}', '\u{308}'])
} else {
None
}
} else {
if v == 0xE5 {
Some(seq!['\u{61}', '\u{30A}'])
} else {
None
}
}
}
}
}
}
} else {
if v < 0xFA {
if v < 0xEF {
if v < 0xEB {
if v < 0xE9 {
if v < 0xE8 {
if v == 0xE7 {
Some(seq!['\u{63}', '\u{327}'])
} else {
None
}
} else {
if v == 0xE8 {
Some(seq!['\u{65}', '\u{300}'])
} else {
None
}
}
} else {
if v < 0xEA {
if v == 0xE9 {
Some(seq!['\u{65}', '\u{301}'])
} else {
None
}
} else {
if v == 0xEA {
Some(seq!['\u{65}', '\u{302}'])
} else {
None
}
}
}
} else {
if v < 0xED {
if v < 0xEC {
if v == 0xEB {
Some(seq!['\u{65}', '\u{308}'])
} else {
None
}
} else {
if v == 0xEC {
Some(seq!['\u{69}', '\u{300}'])
} else {
None
}
}
} else {
if v < 0xEE {
if v == 0xED {
Some(seq!['\u{69}', '\u{301}'])
} else {
None
}
} else {
if v == 0xEE {
Some(seq!['\u{69}', '\u{302}'])
} else {
None
}
}
}
}
} else {
if v < 0xF4 {
if v < 0xF2 {
if v < 0xF1 {
if v == 0xEF {
Some(seq!['\u{69}', '\u{308}'])
} else {
None
}
} else {
if v == 0xF1 {
Some(seq!['\u{6E}', '\u{303}'])
} else {
None
}
}
} else {
if v < 0xF3 {
if v == 0xF2 {
Some(seq!['\u{6F}', '\u{300}'])
} else {
None
}
} else {
if v == 0xF3 {
Some(seq!['\u{6F}', '\u{301}'])
} else {
None
}
}
}
} else {
if v < 0xF6 {
if v < 0xF5 {
if v == 0xF4 {
Some(seq!['\u{6F}', '\u{302}'])
} else {
None
}
} else {
if v == 0xF5 {
Some(seq!['\u{6F}', '\u{303}'])
} else {
None
}
}
} else {
if v < 0xF9 {
if v == 0xF6 {
Some(seq!['\u{6F}', '\u{308}'])
} else {
None
}
} else {
if v == 0xF9 {
Some(seq!['\u{75}', '\u{300}'])
} else {
None
}
}
}
}
}
} else {
if v < 0x103 {
if v < 0xFF {
if v < 0xFC {
if v < 0xFB {
if v == 0xFA {
Some(seq!['\u{75}', '\u{301}'])
} else {
None
}
} else {
if v == 0xFB {
Some(seq!['\u{75}', '\u{302}'])
} else {
None
}
}
} else {
if v < 0xFD {
if v == 0xFC {
Some(seq!['\u{75}', '\u{308}'])
} else {
None
}
} else {
if v == 0xFD {
Some(seq!['\u{79}', '\u{301}'])
} else {
None
}
}
}
} else {
if v < 0x101 {
if v < 0x100 {
if v == 0xFF {
Some(seq!['\u{79}', '\u{308}'])
} else {
None
}
} else {
if v == 0x100 {
Some(seq!['\u{41}', '\u{304}'])
} else {
None
}
}
} else {
if v < 0x102 {
if v == 0x101 {
Some(seq!['\u{61}', '\u{304}'])
} else {
None
}
} else {
if v == 0x102 {
Some(seq!['\u{41}', '\u{306}'])
} else {
None
}
}
}
}
} else {
if v < 0x107 {
if v < 0x105 {
if v < 0x104 {
if v == 0x103 {
Some(seq!['\u{61}', '\u{306}'])
} else {
None
}
} else {
if v == 0x104 {
Some(seq!['\u{41}', '\u{328}'])
} else {
None
}
}
} else {
if v < 0x106 {
if v == 0x105 {
Some(seq!['\u{61}', '\u{328}'])
} else {
None
}
} else {
if v == 0x106 {
Some(seq!['\u{43}', '\u{301}'])
} else {
None
}
}
}
} else {
if v < 0x109 {
if v < 0x108 {
if v == 0x107 {
Some(seq!['\u{63}', '\u{301}'])
} else {
None
}
} else {
if v == 0x108 {
Some(seq!['\u{43}', '\u{302}'])
} else {
None
}
}
} else {
if v < 0x10A {
if v == 0x109 {
Some(seq!['\u{63}', '\u{302}'])
} else {
None
}
} else {
if v == 0x10A {
Some(seq!['\u{43}', '\u{307}'])
} else {
None
}
}
}
}
}
}
}
} else {
if v < 0x12F {
if v < 0x11D {
if v < 0x115 {
if v < 0x10F {
if v < 0x10D {
if v < 0x10C {
if v == 0x10B {
Some(seq!['\u{63}', '\u{307}'])
} else {
None
}
} else {
if v == 0x10C {
Some(seq!['\u{43}', '\u{30C}'])
} else {
None
}
}
} else {
if v < 0x10E {
if v == 0x10D {
Some(seq!['\u{63}', '\u{30C}'])
} else {
None
}
} else {
if v == 0x10E {
Some(seq!['\u{44}', '\u{30C}'])
} else {
None
}
}
}
} else {
if v < 0x113 {
if v < 0x112 {
if v == 0x10F {
Some(seq!['\u{64}', '\u{30C}'])
} else {
None
}
} else {
if v == 0x112 {
Some(seq!['\u{45}', '\u{304}'])
} else {
None
}
}
} else {
if v < 0x114 {
if v == 0x113 {
Some(seq!['\u{65}', '\u{304}'])
} else {
None
}
} else {
if v == 0x114 {
Some(seq!['\u{45}', '\u{306}'])
} else {
None
}
}
}
}
} else {
if v < 0x119 {
if v < 0x117 {
if v < 0x116 {
if v == 0x115 {
Some(seq!['\u{65}', '\u{306}'])
} else {
None
}
} else {
if v == 0x116 {
Some(seq!['\u{45}', '\u{307}'])
} else {
None
}
}
} else {
if v < 0x118 {
if v == 0x117 {
Some(seq!['\u{65}', '\u{307}'])
} else {
None
}
} else {
if v == 0x118 {
Some(seq!['\u{45}', '\u{328}'])
} else {
None
}
}
}
} else {
if v < 0x11B {
if v < 0x11A {
if v == 0x119 {
Some(seq!['\u{65}', '\u{328}'])
} else {
None
}
} else {
if v == 0x11A {
Some(seq!['\u{45}', '\u{30C}'])
} else {
None
}
}
} else {
if v < 0x11C {
if v == 0x11B {
Some(seq!['\u{65}', '\u{30C}'])
} else {
None
}
} else {
if v == 0x11C {
Some(seq!['\u{47}', '\u{302}'])
} else {
None
}
}
}
}
}
} else {
if v < 0x125 {
if v < 0x121 {
if v < 0x11F {
if v < 0x11E {
if v == 0x11D {
Some(seq!['\u{67}', '\u{302}'])
} else {
None
}
} else {
if v == 0x11E {
Some(seq!['\u{47}', '\u{306}'])
} else {
None
}
}
} else {
if v < 0x120 {
if v == 0x11F {
Some(seq!['\u{67}', '\u{306}'])
} else {
None
}
} else {
if v == 0x120 {
Some(seq!['\u{47}', '\u{307}'])
} else {
None
}
}
}
} else {
if v < 0x123 {
if v < 0x122 {
if v == 0x121 {
Some(seq!['\u{67}', '\u{307}'])
} else {
None
}
} else {
if v == 0x122 {
Some(seq!['\u{47}', '\u{327}'])
} else {
None
}
}
} else {
if v < 0x124 {
if v == 0x123 {
Some(seq!['\u{67}', '\u{327}'])
} else {
None
}
} else {
if v == 0x124 {
Some(seq!['\u{48}', '\u{302}'])
} else {
None
}
}
}
}
} else {
if v < 0x12B {
if v < 0x129 {
if v < 0x128 {
if v == 0x125 {
Some(seq!['\u{68}', '\u{302}'])
} else {
None
}
} else {
if v == 0x128 {
Some(seq!['\u{49}', '\u{303}'])
} else {
None
}
}
} else {
if v < 0x12A {
if v == 0x129 {
Some(seq!['\u{69}', '\u{303}'])
} else {
None
}
} else {
if v == 0x12A {
Some(seq!['\u{49}', '\u{304}'])
} else {
None
}
}
}
} else {
if v < 0x12D {
if v < 0x12C {
if v == 0x12B {
Some(seq!['\u{69}', '\u{304}'])
} else {
None
}
} else {
if v == 0x12C {
Some(seq!['\u{49}', '\u{306}'])
} else {
None
}
}
} else {
if v < 0x12E {
if v == 0x12D {
Some(seq!['\u{69}', '\u{306}'])
} else {
None
}
} else {
if v == 0x12E {
Some(seq!['\u{49}', '\u{328}'])
} else {
None
}
}
}
}
}
}
} else {
if v < 0x147 {
if v < 0x13B {
if v < 0x136 {
if v < 0x134 {
if v < 0x130 {
if v == 0x12F {
Some(seq!['\u{69}', '\u{328}'])
} else {
None
}
} else {
if v == 0x130 {
Some(seq!['\u{49}', '\u{307}'])
} else {
None
}
}
} else {
if v < 0x135 {
if v == 0x134 {
Some(seq!['\u{4A}', '\u{302}'])
} else {
None
}
} else {
if v == 0x135 {
Some(seq!['\u{6A}', '\u{302}'])
} else {
None
}
}
}
} else {
if v < 0x139 {
if v < 0x137 {
if v == 0x136 {
Some(seq!['\u{4B}', '\u{327}'])
} else {
None
}
} else {
if v == 0x137 {
Some(seq!['\u{6B}', '\u{327}'])
} else {
None
}
}
} else {
if v < 0x13A {
if v == 0x139 {
Some(seq!['\u{4C}', '\u{301}'])
} else {
None
}
} else {
if v == 0x13A {
Some(seq!['\u{6C}', '\u{301}'])
} else {
None
}
}
}
}
} else {
if v < 0x143 {
if v < 0x13D {
if v < 0x13C {
if v == 0x13B {
Some(seq!['\u{4C}', '\u{327}'])
} else {
None
}
} else {
if v == 0x13C {
Some(seq!['\u{6C}', '\u{327}'])
} else {
None
}
}
} else {
if v < 0x13E {
if v == 0x13D {
Some(seq!['\u{4C}', '\u{30C}'])
} else {
None
}
} else {
if v == 0x13E {
Some(seq!['\u{6C}', '\u{30C}'])
} else {
None
}
}
}
} else {
if v < 0x145 {
if v < 0x144 {
if v == 0x143 {
Some(seq!['\u{4E}', '\u{301}'])
} else {
None
}
} else {
if v == 0x144 {
Some(seq!['\u{6E}', '\u{301}'])
} else {
None
}
}
} else {
if v < 0x146 {
if v == 0x145 {
Some(seq!['\u{4E}', '\u{327}'])
} else {
None
}
} else {
if v == 0x146 {
Some(seq!['\u{6E}', '\u{327}'])
} else {
None
}
}
}
}
}
} else {
if v < 0x154 {
if v < 0x14E {
if v < 0x14C {
if v < 0x148 {
if v == 0x147 {
Some(seq!['\u{4E}', '\u{30C}'])
} else {
None
}
} else {
if v == 0x148 {
Some(seq!['\u{6E}', '\u{30C}'])
} else {
None
}
}
} else {
if v < 0x14D {
if v == 0x14C {
Some(seq!['\u{4F}', '\u{304}'])
} else {
None
}
} else {
if v == 0x14D {
Some(seq!['\u{6F}', '\u{304}'])
} else {
None
}
}
}
} else {
if v < 0x150 {
if v < 0x14F {
if v == 0x14E {
Some(seq!['\u{4F}', '\u{306}'])
} else {
None
}
} else {
if v == 0x14F {
Some(seq!['\u{6F}', '\u{306}'])
} else {
None
}
}
} else {
if v < 0x151 {
if v == 0x150 {
Some(seq!['\u{4F}', '\u{30B}'])
} else {
None
}
} else {
if v == 0x151 {
Some(seq!['\u{6F}', '\u{30B}'])
} else {
None
}
}
}
}
} else {
if v < 0x158 {
if v < 0x156 {
if v < 0x155 {
if v == 0x154 {
Some(seq!['\u{52}', '\u{301}'])
} else {
None
}
} else {
if v == 0x155 {
Some(seq!['\u{72}', '\u{301}'])
} else {
None
}
}
} else {
if v < 0x157 {
if v == 0x156 {
Some(seq!['\u{52}', '\u{327}'])
} else {
None
}
} else {
if v == 0x157 {
Some(seq!['\u{72}', '\u{327}'])
} else {
None
}
}
}
} else {
if v < 0x15A {
if v < 0x159 {
if v == 0x158 {
Some(seq!['\u{52}', '\u{30C}'])
} else {
None
}
} else {
if v == 0x159 {
Some(seq!['\u{72}', '\u{30C}'])
} else {
None
}
}
} else {
if v < 0x15B {
if v == 0x15A {
Some(seq!['\u{53}', '\u{301}'])
} else {
None
}
} else {
if v == 0x15B {
Some(seq!['\u{73}', '\u{301}'])
} else {
None
}
}
}
}
}
}
}
}
} else {
if v < 0x1EB {
if v < 0x17E {
if v < 0x16E {
if v < 0x164 {
if v < 0x160 {
if v < 0x15E {
if v < 0x15D {
if v == 0x15C {
Some(seq!['\u{53}', '\u{302}'])
} else {
None
}
} else {
if v == 0x15D {
Some(seq!['\u{73}', '\u{302}'])
} else {
None
}
}
} else {
if v < 0x15F {
if v == 0x15E {
Some(seq!['\u{53}', '\u{327}'])
} else {
None
}
} else {
if v == 0x15F {
Some(seq!['\u{73}', '\u{327}'])
} else {
None
}
}
}
} else {
if v < 0x162 {
if v < 0x161 {
if v == 0x160 {
Some(seq!['\u{53}', '\u{30C}'])
} else {
None
}
} else {
if v == 0x161 {
Some(seq!['\u{73}', '\u{30C}'])
} else {
None
}
}
} else {
if v < 0x163 {
if v == 0x162 {
Some(seq!['\u{54}', '\u{327}'])
} else {
None
}
} else {
if v == 0x163 {
Some(seq!['\u{74}', '\u{327}'])
} else {
None
}
}
}
}
} else {
if v < 0x16A {
if v < 0x168 {
if v < 0x165 {
if v == 0x164 {
Some(seq!['\u{54}', '\u{30C}'])
} else {
None
}
} else {
if v == 0x165 {
Some(seq!['\u{74}', '\u{30C}'])
} else {
None
}
}
} else {
if v < 0x169 {
if v == 0x168 {
Some(seq!['\u{55}', '\u{303}'])
} else {
None
}
} else {
if v == 0x169 {
Some(seq!['\u{75}', '\u{303}'])
} else {
None
}
}
}
} else {
if v < 0x16C {
if v < 0x16B {
if v == 0x16A {
Some(seq!['\u{55}', '\u{304}'])
} else {
None
}
} else {
if v == 0x16B {
Some(seq!['\u{75}', '\u{304}'])
} else {
None
}
}
} else {
if v < 0x16D {
if v == 0x16C {
Some(seq!['\u{55}', '\u{306}'])
} else {
None
}
} else {
if v == 0x16D {
Some(seq!['\u{75}', '\u{306}'])
} else {
None
}
}
}
}
}
} else {
if v < 0x176 {
if v < 0x172 {
if v < 0x170 {
if v < 0x16F {
if v == 0x16E {
Some(seq!['\u{55}', '\u{30A}'])
} else {
None
}
} else {
if v == 0x16F {
Some(seq!['\u{75}', '\u{30A}'])
} else {
None
}
}
} else {
if v < 0x171 {
if v == 0x170 {
Some(seq!['\u{55}', '\u{30B}'])
} else {
None
}
} else {
if v == 0x171 {
Some(seq!['\u{75}', '\u{30B}'])
} else {
None
}
}
}
} else {
if v < 0x174 {
if v < 0x173 {
if v == 0x172 {
Some(seq!['\u{55}', '\u{328}'])
} else {
None
}
} else {
if v == 0x173 {
Some(seq!['\u{75}', '\u{328}'])
} else {
None
}
}
} else {
if v < 0x175 {
if v == 0x174 {
Some(seq!['\u{57}', '\u{302}'])
} else {
None
}
} else {
if v == 0x175 {
Some(seq!['\u{77}', '\u{302}'])
} else {
None
}
}
}
}
} else {
if v < 0x17A {
if v < 0x178 {
if v < 0x177 {
if v == 0x176 {
Some(seq!['\u{59}', '\u{302}'])
} else {
None
}
} else {
if v == 0x177 {
Some(seq!['\u{79}', '\u{302}'])
} else {
None
}
}
} else {
if v < 0x179 {
if v == 0x178 {
Some(seq!['\u{59}', '\u{308}'])
} else {
None
}
} else {
if v == 0x179 {
Some(seq!['\u{5A}', '\u{301}'])
} else {
None
}
}
}
} else {
if v < 0x17C {
if v < 0x17B {
if v == 0x17A {
Some(seq!['\u{7A}', '\u{301}'])
} else {
None
}
} else {
if v == 0x17B {
Some(seq!['\u{5A}', '\u{307}'])
} else {
None
}
}
} else {
if v < 0x17D {
if v == 0x17C {
Some(seq!['\u{7A}', '\u{307}'])
} else {
None
}
} else {
if v == 0x17D {
Some(seq!['\u{5A}', '\u{30C}'])
} else {
None
}
}
}
}
}
}
} else {
if v < 0x1D8 {
if v < 0x1D0 {
if v < 0x1B0 {
if v < 0x1A1 {
if v < 0x1A0 {
if v == 0x17E {
Some(seq!['\u{7A}', '\u{30C}'])
} else {
None
}
} else {
if v == 0x1A0 {
Some(seq!['\u{4F}', '\u{31B}'])
} else {
None
}
}
} else {
if v < 0x1AF {
if v == 0x1A1 {
Some(seq!['\u{6F}', '\u{31B}'])
} else {
None
}
} else {
if v == 0x1AF {
Some(seq!['\u{55}', '\u{31B}'])
} else {
None
}
}
}
} else {
if v < 0x1CE {
if v < 0x1CD {
if v == 0x1B0 {
Some(seq!['\u{75}', '\u{31B}'])
} else {
None
}
} else {
if v == 0x1CD {
Some(seq!['\u{41}', '\u{30C}'])
} else {
None
}
}
} else {
if v < 0x1CF {
if v == 0x1CE {
Some(seq!['\u{61}', '\u{30C}'])
} else {
None
}
} else {
if v == 0x1CF {
Some(seq!['\u{49}', '\u{30C}'])
} else {
None
}
}
}
}
} else {
if v < 0x1D4 {
if v < 0x1D2 {
if v < 0x1D1 {
if v == 0x1D0 {
Some(seq!['\u{69}', '\u{30C}'])
} else {
None
}
} else {
if v == 0x1D1 {
Some(seq!['\u{4F}', '\u{30C}'])
} else {
None
}
}
} else {
if v < 0x1D3 {
if v == 0x1D2 {
Some(seq!['\u{6F}', '\u{30C}'])
} else {
None
}
} else {
if v == 0x1D3 {
Some(seq!['\u{55}', '\u{30C}'])
} else {
None
}
}
}
} else {
if v < 0x1D6 {
if v < 0x1D5 {
if v == 0x1D4 {
Some(seq!['\u{75}', '\u{30C}'])
} else {
None
}
} else {
if v == 0x1D5 {
Some(seq!['\u{55}', '\u{308}', '\u{304}'])
} else {
None
}
}
} else {
if v < 0x1D7 {
if v == 0x1D6 {
Some(seq!['\u{75}', '\u{308}', '\u{304}'])
} else {
None
}
} else {
if v == 0x1D7 {
Some(seq!['\u{55}', '\u{308}', '\u{301}'])
} else {
None
}
}
}
}
}
} else {
if v < 0x1E1 {
if v < 0x1DC {
if v < 0x1DA {
if v < 0x1D9 {
if v == 0x1D8 {
Some(seq!['\u{75}', '\u{308}', '\u{301}'])
} else {
None
}
} else {
if v == 0x1D9 {
Some(seq!['\u{55}', '\u{308}', '\u{30C}'])
} else {
None
}
}
} else {
if v < 0x1DB {
if v == 0x1DA {
Some(seq!['\u{75}', '\u{308}', '\u{30C}'])
} else {
None
}
} else {
if v == 0x1DB {
Some(seq!['\u{55}', '\u{308}', '\u{300}'])
} else {
None
}
}
}
} else {
if v < 0x1DF {
if v < 0x1DE {
if v == 0x1DC {
Some(seq!['\u{75}', '\u{308}', '\u{300}'])
} else {
None
}
} else {
if v == 0x1DE {
Some(seq!['\u{41}', '\u{308}', '\u{304}'])
} else {
None
}
}
} else {
if v < 0x1E0 {
if v == 0x1DF {
Some(seq!['\u{61}', '\u{308}', '\u{304}'])
} else {
None
}
} else {
if v == 0x1E0 {
Some(seq!['\u{41}', '\u{307}', '\u{304}'])
} else {
None
}
}
}
}
} else {
if v < 0x1E7 {
if v < 0x1E3 {
if v < 0x1E2 {
if v == 0x1E1 {
Some(seq!['\u{61}', '\u{307}', '\u{304}'])
} else {
None
}
} else {
if v == 0x1E2 {
Some(seq!['\u{C6}', '\u{304}'])
} else {
None
}
}
} else {
if v < 0x1E6 {
if v == 0x1E3 {
Some(seq!['\u{E6}', '\u{304}'])
} else {
None
}
} else {
if v == 0x1E6 {
Some(seq!['\u{47}', '\u{30C}'])
} else {
None
}
}
}
} else {
if v < 0x1E9 {
if v < 0x1E8 {
if v == 0x1E7 {
Some(seq!['\u{67}', '\u{30C}'])
} else {
None
}
} else {
if v == 0x1E8 {
Some(seq!['\u{4B}', '\u{30C}'])
} else {
None
}
}
} else {
if v < 0x1EA {
if v == 0x1E9 {
Some(seq!['\u{6B}', '\u{30C}'])
} else {
None
}
} else {
if v == 0x1EA {
Some(seq!['\u{4F}', '\u{328}'])
} else {
None
}
}
}
}
}
}
}
} else {
if v < 0x210 {
if v < 0x200 {
if v < 0x1F8 {
if v < 0x1EF {
if v < 0x1ED {
if v < 0x1EC {
if v == 0x1EB {
Some(seq!['\u{6F}', '\u{328}'])
} else {
None
}
} else {
if v == 0x1EC {
Some(seq!['\u{4F}', '\u{328}', '\u{304}'])
} else {
None
}
}
} else {
if v < 0x1EE {
if v == 0x1ED {
Some(seq!['\u{6F}', '\u{328}', '\u{304}'])
} else {
None
}
} else {
if v == 0x1EE {
Some(seq!['\u{1B7}', '\u{30C}'])
} else {
None
}
}
}
} else {
if v < 0x1F4 {
if v < 0x1F0 {
if v == 0x1EF {
Some(seq!['\u{292}', '\u{30C}'])
} else {
None
}
} else {
if v == 0x1F0 {
Some(seq!['\u{6A}', '\u{30C}'])
} else {
None
}
}
} else {
if v < 0x1F5 {
if v == 0x1F4 {
Some(seq!['\u{47}', '\u{301}'])
} else {
None
}
} else {
if v == 0x1F5 {
Some(seq!['\u{67}', '\u{301}'])
} else {
None
}
}
}
}
} else {
if v < 0x1FC {
if v < 0x1FA {
if v < 0x1F9 {
if v == 0x1F8 {
Some(seq!['\u{4E}', '\u{300}'])
} else {
None
}
} else {
if v == 0x1F9 {
Some(seq!['\u{6E}', '\u{300}'])
} else {
None
}
}
} else {
if v < 0x1FB {
if v == 0x1FA {
Some(seq!['\u{41}', '\u{30A}', '\u{301}'])
} else {
None
}
} else {
if v == 0x1FB {
Some(seq!['\u{61}', '\u{30A}', '\u{301}'])
} else {
None
}
}
}
} else {
if v < 0x1FE {
if v < 0x1FD {
if v == 0x1FC {
Some(seq!['\u{C6}', '\u{301}'])
} else {
None
}
} else {
if v == 0x1FD {
Some(seq!['\u{E6}', '\u{301}'])
} else {
None
}
}
} else {
if v < 0x1FF {
if v == 0x1FE {
Some(seq!['\u{D8}', '\u{301}'])
} else {
None
}
} else {
if v == 0x1FF {
Some(seq!['\u{F8}', '\u{301}'])
} else {
None
}
}
}
}
}
} else {
if v < 0x208 {
if v < 0x204 {
if v < 0x202 {
if v < 0x201 {
if v == 0x200 {
Some(seq!['\u{41}', '\u{30F}'])
} else {
None
}
} else {
if v == 0x201 {
Some(seq!['\u{61}', '\u{30F}'])
} else {
None
}
}
} else {
if v < 0x203 {
if v == 0x202 {
Some(seq!['\u{41}', '\u{311}'])
} else {
None
}
} else {
if v == 0x203 {
Some(seq!['\u{61}', '\u{311}'])
} else {
None
}
}
}
} else {
if v < 0x206 {
if v < 0x205 {
if v == 0x204 {
Some(seq!['\u{45}', '\u{30F}'])
} else {
None
}
} else {
if v == 0x205 {
Some(seq!['\u{65}', '\u{30F}'])
} else {
None
}
}
} else {
if v < 0x207 {
if v == 0x206 {
Some(seq!['\u{45}', '\u{311}'])
} else {
None
}
} else {
if v == 0x207 {
Some(seq!['\u{65}', '\u{311}'])
} else {
None
}
}
}
}
} else {
if v < 0x20C {
if v < 0x20A {
if v < 0x209 {
if v == 0x208 {
Some(seq!['\u{49}', '\u{30F}'])
} else {
None
}
} else {
if v == 0x209 {
Some(seq!['\u{69}', '\u{30F}'])
} else {
None
}
}
} else {
if v < 0x20B {
if v == 0x20A {
Some(seq!['\u{49}', '\u{311}'])
} else {
None
}
} else {
if v == 0x20B {
Some(seq!['\u{69}', '\u{311}'])
} else {
None
}
}
}
} else {
if v < 0x20E {
if v < 0x20D {
if v == 0x20C {
Some(seq!['\u{4F}', '\u{30F}'])
} else {
None
}
} else {
if v == 0x20D {
Some(seq!['\u{6F}', '\u{30F}'])
} else {
None
}
}
} else {
if v < 0x20F {
if v == 0x20E {
Some(seq!['\u{4F}', '\u{311}'])
} else {
None
}
} else {
if v == 0x20F {
Some(seq!['\u{6F}', '\u{311}'])
} else {
None
}
}
}
}
}
}
} else {
if v < 0x228 {
if v < 0x218 {
if v < 0x214 {
if v < 0x212 {
if v < 0x211 {
if v == 0x210 {
Some(seq!['\u{52}', '\u{30F}'])
} else {
None
}
} else {
if v == 0x211 {
Some(seq!['\u{72}', '\u{30F}'])
} else {
None
}
}
} else {
if v < 0x213 {
if v == 0x212 {
Some(seq!['\u{52}', '\u{311}'])
} else {
None
}
} else {
if v == 0x213 {
Some(seq!['\u{72}', '\u{311}'])
} else {
None
}
}
}
} else {
if v < 0x216 {
if v < 0x215 {
if v == 0x214 {
Some(seq!['\u{55}', '\u{30F}'])
} else {
None
}
} else {
if v == 0x215 {
Some(seq!['\u{75}', '\u{30F}'])
} else {
None
}
}
} else {
if v < 0x217 {
if v == 0x216 {
Some(seq!['\u{55}', '\u{311}'])
} else {
None
}
} else {
if v == 0x217 {
Some(seq!['\u{75}', '\u{311}'])
} else {
None
}
}
}
}
} else {
if v < 0x21E {
if v < 0x21A {
if v < 0x219 {
if v == 0x218 {
Some(seq!['\u{53}', '\u{326}'])
} else {
None
}
} else {
if v == 0x219 {
Some(seq!['\u{73}', '\u{326}'])
} else {
None
}
}
} else {
if v < 0x21B {
if v == 0x21A {
Some(seq!['\u{54}', '\u{326}'])
} else {
None
}
} else {
if v == 0x21B {
Some(seq!['\u{74}', '\u{326}'])
} else {
None
}
}
}
} else {
if v < 0x226 {
if v < 0x21F {
if v == 0x21E {
Some(seq!['\u{48}', '\u{30C}'])
} else {
None
}
} else {
if v == 0x21F {
Some(seq!['\u{68}', '\u{30C}'])
} else {
None
}
}
} else {
if v < 0x227 {
if v == 0x226 {
Some(seq!['\u{41}', '\u{307}'])
} else {
None
}
} else {
if v == 0x227 {
Some(seq!['\u{61}', '\u{307}'])
} else {
None
}
}
}
}
}
} else {
if v < 0x230 {
if v < 0x22C {
if v < 0x22A {
if v < 0x229 {
if v == 0x228 {
Some(seq!['\u{45}', '\u{327}'])
} else {
None
}
} else {
if v == 0x229 {
Some(seq!['\u{65}', '\u{327}'])
} else {
None
}
}
} else {
if v < 0x22B {
if v == 0x22A {
Some(seq!['\u{4F}', '\u{308}', '\u{304}'])
} else {
None
}
} else {
if v == 0x22B {
Some(seq!['\u{6F}', '\u{308}', '\u{304}'])
} else {
None
}
}
}
} else {
if v < 0x22E {
if v < 0x22D {
if v == 0x22C {
Some(seq!['\u{4F}', '\u{303}', '\u{304}'])
} else {
None
}
} else {
if v == 0x22D {
Some(seq!['\u{6F}', '\u{303}', '\u{304}'])
} else {
None
}
}
} else {
if v < 0x22F {
if v == 0x22E {
Some(seq!['\u{4F}', '\u{307}'])
} else {
None
}
} else {
if v == 0x22F {
Some(seq!['\u{6F}', '\u{307}'])
} else {
None
}
}
}
}
} else {
if v < 0x340 {
if v < 0x232 {
if v < 0x231 {
if v == 0x230 {
Some(seq!['\u{4F}', '\u{307}', '\u{304}'])
} else {
None
}
} else {
if v == 0x231 {
Some(seq!['\u{6F}', '\u{307}', '\u{304}'])
} else {
None
}
}
} else {
if v < 0x233 {
if v == 0x232 {
Some(seq!['\u{59}', '\u{304}'])
} else {
None
}
} else {
if v == 0x233 {
Some(seq!['\u{79}', '\u{304}'])
} else {
None
}
}
}
} else {
if v < 0x343 {
if v < 0x341 {
if v == 0x340 {
Some(seq!['\u{300}'])
} else {
None
}
} else {
if v == 0x341 {
Some(seq!['\u{301}'])
} else {
None
}
}
} else {
if v < 0x344 {
if v == 0x343 {
Some(seq!['\u{313}'])
} else {
None
}
} else {
if v < 0x374 {
if v == 0x344 {
Some(seq!['\u{308}', '\u{301}'])
} else {
None
}
} else {
if v == 0x374 {
Some(seq!['\u{2B9}'])
} else {
None
}
}
}
}
}
}
}
}
}
}
} else {
if v < 0xF43 {
if v < 0x4EB {
if v < 0x419 {
if v < 0x3AF {
if v < 0x38E {
if v < 0x388 {
if v < 0x386 {
if v < 0x385 {
if v == 0x37E {
Some(seq!['\u{3B}'])
} else {
None
}
} else {
if v == 0x385 {
Some(seq!['\u{A8}', '\u{301}'])
} else {
None
}
}
} else {
if v < 0x387 {
if v == 0x386 {
Some(seq!['\u{391}', '\u{301}'])
} else {
None
}
} else {
if v == 0x387 {
Some(seq!['\u{B7}'])
} else {
None
}
}
}
} else {
if v < 0x38A {
if v < 0x389 {
if v == 0x388 {
Some(seq!['\u{395}', '\u{301}'])
} else {
None
}
} else {
if v == 0x389 {
Some(seq!['\u{397}', '\u{301}'])
} else {
None
}
}
} else {
if v < 0x38C {
if v == 0x38A {
Some(seq!['\u{399}', '\u{301}'])
} else {
None
}
} else {
if v == 0x38C {
Some(seq!['\u{39F}', '\u{301}'])
} else {
None
}
}
}
}
} else {
if v < 0x3AB {
if v < 0x390 {
if v < 0x38F {
if v == 0x38E {
Some(seq!['\u{3A5}', '\u{301}'])
} else {
None
}
} else {
if v == 0x38F {
Some(seq!['\u{3A9}', '\u{301}'])
} else {
None
}
}
} else {
if v < 0x3AA {
if v == 0x390 {
Some(seq!['\u{3B9}', '\u{308}', '\u{301}'])
} else {
None
}
} else {
if v == 0x3AA {
Some(seq!['\u{399}', '\u{308}'])
} else {
None
}
}
}
} else {
if v < 0x3AD {
if v < 0x3AC {
if v == 0x3AB {
Some(seq!['\u{3A5}', '\u{308}'])
} else {
None
}
} else {
if v == 0x3AC {
Some(seq!['\u{3B1}', '\u{301}'])
} else {
None
}
}
} else {
if v < 0x3AE {
if v == 0x3AD {
Some(seq!['\u{3B5}', '\u{301}'])
} else {
None
}
} else {
if v == 0x3AE {
Some(seq!['\u{3B7}', '\u{301}'])
} else {
None
}
}
}
}
}
} else {
if v < 0x3D4 {
if v < 0x3CC {
if v < 0x3CA {
if v < 0x3B0 {
if v == 0x3AF {
Some(seq!['\u{3B9}', '\u{301}'])
} else {
None
}
} else {
if v == 0x3B0 {
Some(seq!['\u{3C5}', '\u{308}', '\u{301}'])
} else {
None
}
}
} else {
if v < 0x3CB {
if v == 0x3CA {
Some(seq!['\u{3B9}', '\u{308}'])
} else {
None
}
} else {
if v == 0x3CB {
Some(seq!['\u{3C5}', '\u{308}'])
} else {
None
}
}
}
} else {
if v < 0x3CE {
if v < 0x3CD {
if v == 0x3CC {
Some(seq!['\u{3BF}', '\u{301}'])
} else {
None
}
} else {
if v == 0x3CD {
Some(seq!['\u{3C5}', '\u{301}'])
} else {
None
}
}
} else {
if v < 0x3D3 {
if v == 0x3CE {
Some(seq!['\u{3C9}', '\u{301}'])
} else {
None
}
} else {
if v == 0x3D3 {
Some(seq!['\u{3D2}', '\u{301}'])
} else {
None
}
}
}
}
} else {
if v < 0x407 {
if v < 0x401 {
if v < 0x400 {
if v == 0x3D4 {
Some(seq!['\u{3D2}', '\u{308}'])
} else {
None
}
} else {
if v == 0x400 {
Some(seq!['\u{415}', '\u{300}'])
} else {
None
}
}
} else {
if v < 0x403 {
if v == 0x401 {
Some(seq!['\u{415}', '\u{308}'])
} else {
None
}
} else {
if v == 0x403 {
Some(seq!['\u{413}', '\u{301}'])
} else {
None
}
}
}
} else {
if v < 0x40D {
if v < 0x40C {
if v == 0x407 {
Some(seq!['\u{406}', '\u{308}'])
} else {
None
}
} else {
if v == 0x40C {
Some(seq!['\u{41A}', '\u{301}'])
} else {
None
}
}
} else {
if v < 0x40E {
if v == 0x40D {
Some(seq!['\u{418}', '\u{300}'])
} else {
None
}
} else {
if v == 0x40E {
Some(seq!['\u{423}', '\u{306}'])
} else {
None
}
}
}
}
}
}
} else {
if v < 0x4D3 {
if v < 0x45E {
if v < 0x453 {
if v < 0x450 {
if v < 0x439 {
if v == 0x419 {
Some(seq!['\u{418}', '\u{306}'])
} else {
None
}
} else {
if v == 0x439 {
Some(seq!['\u{438}', '\u{306}'])
} else {
None
}
}
} else {
if v < 0x451 {
if v == 0x450 {
Some(seq!['\u{435}', '\u{300}'])
} else {
None
}
} else {
if v == 0x451 {
Some(seq!['\u{435}', '\u{308}'])
} else {
None
}
}
}
} else {
if v < 0x45C {
if v < 0x457 {
if v == 0x453 {
Some(seq!['\u{433}', '\u{301}'])
} else {
None
}
} else {
if v == 0x457 {
Some(seq!['\u{456}', '\u{308}'])
} else {
None
}
}
} else {
if v < 0x45D {
if v == 0x45C {
Some(seq!['\u{43A}', '\u{301}'])
} else {
None
}
} else {
if v == 0x45D {
Some(seq!['\u{438}', '\u{300}'])
} else {
None
}
}
}
}
} else {
if v < 0x4C2 {
if v < 0x477 {
if v < 0x476 {
if v == 0x45E {
Some(seq!['\u{443}', '\u{306}'])
} else {
None
}
} else {
if v == 0x476 {
Some(seq!['\u{474}', '\u{30F}'])
} else {
None
}
}
} else {
if v < 0x4C1 {
if v == 0x477 {
Some(seq!['\u{475}', '\u{30F}'])
} else {
None
}
} else {
if v == 0x4C1 {
Some(seq!['\u{416}', '\u{306}'])
} else {
None
}
}
}
} else {
if v < 0x4D1 {
if v < 0x4D0 {
if v == 0x4C2 {
Some(seq!['\u{436}', '\u{306}'])
} else {
None
}
} else {
if v == 0x4D0 {
Some(seq!['\u{410}', '\u{306}'])
} else {
None
}
}
} else {
if v < 0x4D2 {
if v == 0x4D1 {
Some(seq!['\u{430}', '\u{306}'])
} else {
None
}
} else {
if v == 0x4D2 {
Some(seq!['\u{410}', '\u{308}'])
} else {
None
}
}
}
}
}
} else {
if v < 0x4DF {
if v < 0x4DB {
if v < 0x4D7 {
if v < 0x4D6 {
if v == 0x4D3 {
Some(seq!['\u{430}', '\u{308}'])
} else {
None
}
} else {
if v == 0x4D6 {
Some(seq!['\u{415}', '\u{306}'])
} else {
None
}
}
} else {
if v < 0x4DA {
if v == 0x4D7 {
Some(seq!['\u{435}', '\u{306}'])
} else {
None
}
} else {
if v == 0x4DA {
Some(seq!['\u{4D8}', '\u{308}'])
} else {
None
}
}
}
} else {
if v < 0x4DD {
if v < 0x4DC {
if v == 0x4DB {
Some(seq!['\u{4D9}', '\u{308}'])
} else {
None
}
} else {
if v == 0x4DC {
Some(seq!['\u{416}', '\u{308}'])
} else {
None
}
}
} else {
if v < 0x4DE {
if v == 0x4DD {
Some(seq!['\u{436}', '\u{308}'])
} else {
None
}
} else {
if v == 0x4DE {
Some(seq!['\u{417}', '\u{308}'])
} else {
None
}
}
}
}
} else {
if v < 0x4E5 {
if v < 0x4E3 {
if v < 0x4E2 {
if v == 0x4DF {
Some(seq!['\u{437}', '\u{308}'])
} else {
None
}
} else {
if v == 0x4E2 {
Some(seq!['\u{418}', '\u{304}'])
} else {
None
}
}
} else {
if v < 0x4E4 {
if v == 0x4E3 {
Some(seq!['\u{438}', '\u{304}'])
} else {
None
}
} else {
if v == 0x4E4 {
Some(seq!['\u{418}', '\u{308}'])
} else {
None
}
}
}
} else {
if v < 0x4E7 {
if v < 0x4E6 {
if v == 0x4E5 {
Some(seq!['\u{438}', '\u{308}'])
} else {
None
}
} else {
if v == 0x4E6 {
Some(seq!['\u{41E}', '\u{308}'])
} else {
None
}
}
} else {
if v < 0x4EA {
if v == 0x4E7 {
Some(seq!['\u{43E}', '\u{308}'])
} else {
None
}
} else {
if v == 0x4EA {
Some(seq!['\u{4E8}', '\u{308}'])
} else {
None
}
}
}
}
}
}
}
} else {
if v < 0x9CB {
if v < 0x625 {
if v < 0x4F3 {
if v < 0x4EF {
if v < 0x4ED {
if v < 0x4EC {
if v == 0x4EB {
Some(seq!['\u{4E9}', '\u{308}'])
} else {
None
}
} else {
if v == 0x4EC {
Some(seq!['\u{42D}', '\u{308}'])
} else {
None
}
}
} else {
if v < 0x4EE {
if v == 0x4ED {
Some(seq!['\u{44D}', '\u{308}'])
} else {
None
}
} else {
if v == 0x4EE {
Some(seq!['\u{423}', '\u{304}'])
} else {
None
}
}
}
} else {
if v < 0x4F1 {
if v < 0x4F0 {
if v == 0x4EF {
Some(seq!['\u{443}', '\u{304}'])
} else {
None
}
} else {
if v == 0x4F0 {
Some(seq!['\u{423}', '\u{308}'])
} else {
None
}
}
} else {
if v < 0x4F2 {
if v == 0x4F1 {
Some(seq!['\u{443}', '\u{308}'])
} else {
None
}
} else {
if v == 0x4F2 {
Some(seq!['\u{423}', '\u{30B}'])
} else {
None
}
}
}
}
} else {
if v < 0x4F9 {
if v < 0x4F5 {
if v < 0x4F4 {
if v == 0x4F3 {
Some(seq!['\u{443}', '\u{30B}'])
} else {
None
}
} else {
if v == 0x4F4 {
Some(seq!['\u{427}', '\u{308}'])
} else {
None
}
}
} else {
if v < 0x4F8 {
if v == 0x4F5 {
Some(seq!['\u{447}', '\u{308}'])
} else {
None
}
} else {
if v == 0x4F8 {
Some(seq!['\u{42B}', '\u{308}'])
} else {
None
}
}
}
} else {
if v < 0x623 {
if v < 0x622 {
if v == 0x4F9 {
Some(seq!['\u{44B}', '\u{308}'])
} else {
None
}
} else {
if v == 0x622 {
Some(seq!['\u{627}', '\u{653}'])
} else {
None
}
}
} else {
if v < 0x624 {
if v == 0x623 {
Some(seq!['\u{627}', '\u{654}'])
} else {
None
}
} else {
if v == 0x624 {
Some(seq!['\u{648}', '\u{654}'])
} else {
None
}
}
}
}
}
} else {
if v < 0x958 {
if v < 0x6D3 {
if v < 0x6C0 {
if v < 0x626 {
if v == 0x625 {
Some(seq!['\u{627}', '\u{655}'])
} else {
None
}
} else {
if v == 0x626 {
Some(seq!['\u{64A}', '\u{654}'])
} else {
None
}
}
} else {
if v < 0x6C2 {
if v == 0x6C0 {
Some(seq!['\u{6D5}', '\u{654}'])
} else {
None
}
} else {
if v == 0x6C2 {
Some(seq!['\u{6C1}', '\u{654}'])
} else {
None
}
}
}
} else {
if v < 0x931 {
if v < 0x929 {
if v == 0x6D3 {
Some(seq!['\u{6D2}', '\u{654}'])
} else {
None
}
} else {
if v == 0x929 {
Some(seq!['\u{928}', '\u{93C}'])
} else {
None
}
}
} else {
if v < 0x934 {
if v == 0x931 {
Some(seq!['\u{930}', '\u{93C}'])
} else {
None
}
} else {
if v == 0x934 {
Some(seq!['\u{933}', '\u{93C}'])
} else {
None
}
}
}
}
} else {
if v < 0x95C {
if v < 0x95A {
if v < 0x959 {
if v == 0x958 {
Some(seq!['\u{915}', '\u{93C}'])
} else {
None
}
} else {
if v == 0x959 {
Some(seq!['\u{916}', '\u{93C}'])
} else {
None
}
}
} else {
if v < 0x95B {
if v == 0x95A {
Some(seq!['\u{917}', '\u{93C}'])
} else {
None
}
} else {
if v == 0x95B {
Some(seq!['\u{91C}', '\u{93C}'])
} else {
None
}
}
}
} else {
if v < 0x95E {
if v < 0x95D {
if v == 0x95C {
Some(seq!['\u{921}', '\u{93C}'])
} else {
None
}
} else {
if v == 0x95D {
Some(seq!['\u{922}', '\u{93C}'])
} else {
None
}
}
} else {
if v < 0x95F {
if v == 0x95E {
Some(seq!['\u{92B}', '\u{93C}'])
} else {
None
}
} else {
if v == 0x95F {
Some(seq!['\u{92F}', '\u{93C}'])
} else {
None
}
}
}
}
}
}
} else {
if v < 0xB94 {
if v < 0xA5A {
if v < 0x9DF {
if v < 0x9DC {
if v < 0x9CC {
if v == 0x9CB {
Some(seq!['\u{9C7}', '\u{9BE}'])
} else {
None
}
} else {
if v == 0x9CC {
Some(seq!['\u{9C7}', '\u{9D7}'])
} else {
None
}
}
} else {
if v < 0x9DD {
if v == 0x9DC {
Some(seq!['\u{9A1}', '\u{9BC}'])
} else {
None
}
} else {
if v == 0x9DD {
Some(seq!['\u{9A2}', '\u{9BC}'])
} else {
None
}
}
}
} else {
if v < 0xA36 {
if v < 0xA33 {
if v == 0x9DF {
Some(seq!['\u{9AF}', '\u{9BC}'])
} else {
None
}
} else {
if v == 0xA33 {
Some(seq!['\u{A32}', '\u{A3C}'])
} else {
None
}
}
} else {
if v < 0xA59 {
if v == 0xA36 {
Some(seq!['\u{A38}', '\u{A3C}'])
} else {
None
}
} else {
if v == 0xA59 {
Some(seq!['\u{A16}', '\u{A3C}'])
} else {
None
}
}
}
}
} else {
if v < 0xB4B {
if v < 0xA5E {
if v < 0xA5B {
if v == 0xA5A {
Some(seq!['\u{A17}', '\u{A3C}'])
} else {
None
}
} else {
if v == 0xA5B {
Some(seq!['\u{A1C}', '\u{A3C}'])
} else {
None
}
}
} else {
if v < 0xB48 {
if v == 0xA5E {
Some(seq!['\u{A2B}', '\u{A3C}'])
} else {
None
}
} else {
if v == 0xB48 {
Some(seq!['\u{B47}', '\u{B56}'])
} else {
None
}
}
}
} else {
if v < 0xB5C {
if v < 0xB4C {
if v == 0xB4B {
Some(seq!['\u{B47}', '\u{B3E}'])
} else {
None
}
} else {
if v == 0xB4C {
Some(seq!['\u{B47}', '\u{B57}'])
} else {
None
}
}
} else {
if v < 0xB5D {
if v == 0xB5C {
Some(seq!['\u{B21}', '\u{B3C}'])
} else {
None
}
} else {
if v == 0xB5D {
Some(seq!['\u{B22}', '\u{B3C}'])
} else {
None
}
}
}
}
}
} else {
if v < 0xCCA {
if v < 0xC48 {
if v < 0xBCB {
if v < 0xBCA {
if v == 0xB94 {
Some(seq!['\u{B92}', '\u{BD7}'])
} else {
None
}
} else {
if v == 0xBCA {
Some(seq!['\u{BC6}', '\u{BBE}'])
} else {
None
}
}
} else {
if v < 0xBCC {
if v == 0xBCB {
Some(seq!['\u{BC7}', '\u{BBE}'])
} else {
None
}
} else {
if v == 0xBCC {
Some(seq!['\u{BC6}', '\u{BD7}'])
} else {
None
}
}
}
} else {
if v < 0xCC7 {
if v < 0xCC0 {
if v == 0xC48 {
Some(seq!['\u{C46}', '\u{C56}'])
} else {
None
}
} else {
if v == 0xCC0 {
Some(seq!['\u{CBF}', '\u{CD5}'])
} else {
None
}
}
} else {
if v < 0xCC8 {
if v == 0xCC7 {
Some(seq!['\u{CC6}', '\u{CD5}'])
} else {
None
}
} else {
if v == 0xCC8 {
Some(seq!['\u{CC6}', '\u{CD6}'])
} else {
None
}
}
}
}
} else {
if v < 0xD4C {
if v < 0xD4A {
if v < 0xCCB {
if v == 0xCCA {
Some(seq!['\u{CC6}', '\u{CC2}'])
} else {
None
}
} else {
if v == 0xCCB {
Some(seq!['\u{CC6}', '\u{CC2}', '\u{CD5}'])
} else {
None
}
}
} else {
if v < 0xD4B {
if v == 0xD4A {
Some(seq!['\u{D46}', '\u{D3E}'])
} else {
None
}
} else {
if v == 0xD4B {
Some(seq!['\u{D47}', '\u{D3E}'])
} else {
None
}
}
}
} else {
if v < 0xDDC {
if v < 0xDDA {
if v == 0xD4C {
Some(seq!['\u{D46}', '\u{D57}'])
} else {
None
}
} else {
if v == 0xDDA {
Some(seq!['\u{DD9}', '\u{DCA}'])
} else {
None
}
}
} else {
if v < 0xDDD {
if v == 0xDDC {
Some(seq!['\u{DD9}', '\u{DCF}'])
} else {
None
}
} else {
if v < 0xDDE {
if v == 0xDDD {
Some(seq!['\u{DD9}', '\u{DCF}', '\u{DCA}'])
} else {
None
}
} else {
if v == 0xDDE {
Some(seq!['\u{DD9}', '\u{DDF}'])
} else {
None
}
}
}
}
}
}
}
}
}
} else {
if v < 0x1E23 {
if v < 0x1E03 {
if v < 0xFB9 {
if v < 0xF76 {
if v < 0xF5C {
if v < 0xF52 {
if v < 0xF4D {
if v == 0xF43 {
Some(seq!['\u{F42}', '\u{FB7}'])
} else {
None
}
} else {
if v == 0xF4D {
Some(seq!['\u{F4C}', '\u{FB7}'])
} else {
None
}
}
} else {
if v < 0xF57 {
if v == 0xF52 {
Some(seq!['\u{F51}', '\u{FB7}'])
} else {
None
}
} else {
if v == 0xF57 {
Some(seq!['\u{F56}', '\u{FB7}'])
} else {
None
}
}
}
} else {
if v < 0xF73 {
if v < 0xF69 {
if v == 0xF5C {
Some(seq!['\u{F5B}', '\u{FB7}'])
} else {
None
}
} else {
if v == 0xF69 {
Some(seq!['\u{F40}', '\u{FB5}'])
} else {
None
}
}
} else {
if v < 0xF75 {
if v == 0xF73 {
Some(seq!['\u{F71}', '\u{F72}'])
} else {
None
}
} else {
if v == 0xF75 {
Some(seq!['\u{F71}', '\u{F74}'])
} else {
None
}
}
}
}
} else {
if v < 0xF9D {
if v < 0xF81 {
if v < 0xF78 {
if v == 0xF76 {
Some(seq!['\u{FB2}', '\u{F80}'])
} else {
None
}
} else {
if v == 0xF78 {
Some(seq!['\u{FB3}', '\u{F80}'])
} else {
None
}
}
} else {
if v < 0xF93 {
if v == 0xF81 {
Some(seq!['\u{F71}', '\u{F80}'])
} else {
None
}
} else {
if v == 0xF93 {
Some(seq!['\u{F92}', '\u{FB7}'])
} else {
None
}
}
}
} else {
if v < 0xFA7 {
if v < 0xFA2 {
if v == 0xF9D {
Some(seq!['\u{F9C}', '\u{FB7}'])
} else {
None
}
} else {
if v == 0xFA2 {
Some(seq!['\u{FA1}', '\u{FB7}'])
} else {
None
}
}
} else {
if v < 0xFAC {
if v == 0xFA7 {
Some(seq!['\u{FA6}', '\u{FB7}'])
} else {
None
}
} else {
if v == 0xFAC {
Some(seq!['\u{FAB}', '\u{FB7}'])
} else {
None
}
}
}
}
}
} else {
if v < 0x1B3B {
if v < 0x1B0A {
if v < 0x1B06 {
if v < 0x1026 {
if v == 0xFB9 {
Some(seq!['\u{F90}', '\u{FB5}'])
} else {
None
}
} else {
if v == 0x1026 {
Some(seq!['\u{1025}', '\u{102E}'])
} else {
None
}
}
} else {
if v < 0x1B08 {
if v == 0x1B06 {
Some(seq!['\u{1B05}', '\u{1B35}'])
} else {
None
}
} else {
if v == 0x1B08 {
Some(seq!['\u{1B07}', '\u{1B35}'])
} else {
None
}
}
}
} else {
if v < 0x1B0E {
if v < 0x1B0C {
if v == 0x1B0A {
Some(seq!['\u{1B09}', '\u{1B35}'])
} else {
None
}
} else {
if v == 0x1B0C {
Some(seq!['\u{1B0B}', '\u{1B35}'])
} else {
None
}
}
} else {
if v < 0x1B12 {
if v == 0x1B0E {
Some(seq!['\u{1B0D}', '\u{1B35}'])
} else {
None
}
} else {
if v == 0x1B12 {
Some(seq!['\u{1B11}', '\u{1B35}'])
} else {
None
}
}
}
}
} else {
if v < 0x1B43 {
if v < 0x1B40 {
if v < 0x1B3D {
if v == 0x1B3B {
Some(seq!['\u{1B3A}', '\u{1B35}'])
} else {
None
}
} else {
if v == 0x1B3D {
Some(seq!['\u{1B3C}', '\u{1B35}'])
} else {
None
}
}
} else {
if v < 0x1B41 {
if v == 0x1B40 {
Some(seq!['\u{1B3E}', '\u{1B35}'])
} else {
None
}
} else {
if v == 0x1B41 {
Some(seq!['\u{1B3F}', '\u{1B35}'])
} else {
None
}
}
}
} else {
if v < 0x1E01 {
if v < 0x1E00 {
if v == 0x1B43 {
Some(seq!['\u{1B42}', '\u{1B35}'])
} else {
None
}
} else {
if v == 0x1E00 {
Some(seq!['\u{41}', '\u{325}'])
} else {
None
}
}
} else {
if v < 0x1E02 {
if v == 0x1E01 {
Some(seq!['\u{61}', '\u{325}'])
} else {
None
}
} else {
if v == 0x1E02 {
Some(seq!['\u{42}', '\u{307}'])
} else {
None
}
}
}
}
}
}
} else {
if v < 0x1E13 {
if v < 0x1E0B {
if v < 0x1E07 {
if v < 0x1E05 {
if v < 0x1E04 {
if v == 0x1E03 {
Some(seq!['\u{62}', '\u{307}'])
} else {
None
}
} else {
if v == 0x1E04 {
Some(seq!['\u{42}', '\u{323}'])
} else {
None
}
}
} else {
if v < 0x1E06 {
if v == 0x1E05 {
Some(seq!['\u{62}', '\u{323}'])
} else {
None
}
} else {
if v == 0x1E06 {
Some(seq!['\u{42}', '\u{331}'])
} else {
None
}
}
}
} else {
if v < 0x1E09 {
if v < 0x1E08 {
if v == 0x1E07 {
Some(seq!['\u{62}', '\u{331}'])
} else {
None
}
} else {
if v == 0x1E08 {
Some(seq!['\u{43}', '\u{327}', '\u{301}'])
} else {
None
}
}
} else {
if v < 0x1E0A {
if v == 0x1E09 {
Some(seq!['\u{63}', '\u{327}', '\u{301}'])
} else {
None
}
} else {
if v == 0x1E0A {
Some(seq!['\u{44}', '\u{307}'])
} else {
None
}
}
}
}
} else {
if v < 0x1E0F {
if v < 0x1E0D {
if v < 0x1E0C {
if v == 0x1E0B {
Some(seq!['\u{64}', '\u{307}'])
} else {
None
}
} else {
if v == 0x1E0C {
Some(seq!['\u{44}', '\u{323}'])
} else {
None
}
}
} else {
if v < 0x1E0E {
if v == 0x1E0D {
Some(seq!['\u{64}', '\u{323}'])
} else {
None
}
} else {
if v == 0x1E0E {
Some(seq!['\u{44}', '\u{331}'])
} else {
None
}
}
}
} else {
if v < 0x1E11 {
if v < 0x1E10 {
if v == 0x1E0F {
Some(seq!['\u{64}', '\u{331}'])
} else {
None
}
} else {
if v == 0x1E10 {
Some(seq!['\u{44}', '\u{327}'])
} else {
None
}
}
} else {
if v < 0x1E12 {
if v == 0x1E11 {
Some(seq!['\u{64}', '\u{327}'])
} else {
None
}
} else {
if v == 0x1E12 {
Some(seq!['\u{44}', '\u{32D}'])
} else {
None
}
}
}
}
}
} else {
if v < 0x1E1B {
if v < 0x1E17 {
if v < 0x1E15 {
if v < 0x1E14 {
if v == 0x1E13 {
Some(seq!['\u{64}', '\u{32D}'])
} else {
None
}
} else {
if v == 0x1E14 {
Some(seq!['\u{45}', '\u{304}', '\u{300}'])
} else {
None
}
}
} else {
if v < 0x1E16 {
if v == 0x1E15 {
Some(seq!['\u{65}', '\u{304}', '\u{300}'])
} else {
None
}
} else {
if v == 0x1E16 {
Some(seq!['\u{45}', '\u{304}', '\u{301}'])
} else {
None
}
}
}
} else {
if v < 0x1E19 {
if v < 0x1E18 {
if v == 0x1E17 {
Some(seq!['\u{65}', '\u{304}', '\u{301}'])
} else {
None
}
} else {
if v == 0x1E18 {
Some(seq!['\u{45}', '\u{32D}'])
} else {
None
}
}
} else {
if v < 0x1E1A {
if v == 0x1E19 {
Some(seq!['\u{65}', '\u{32D}'])
} else {
None
}
} else {
if v == 0x1E1A {
Some(seq!['\u{45}', '\u{330}'])
} else {
None
}
}
}
}
} else {
if v < 0x1E1F {
if v < 0x1E1D {
if v < 0x1E1C {
if v == 0x1E1B {
Some(seq!['\u{65}', '\u{330}'])
} else {
None
}
} else {
if v == 0x1E1C {
Some(seq!['\u{45}', '\u{327}', '\u{306}'])
} else {
None
}
}
} else {
if v < 0x1E1E {
if v == 0x1E1D {
Some(seq!['\u{65}', '\u{327}', '\u{306}'])
} else {
None
}
} else {
if v == 0x1E1E {
Some(seq!['\u{46}', '\u{307}'])
} else {
None
}
}
}
} else {
if v < 0x1E21 {
if v < 0x1E20 {
if v == 0x1E1F {
Some(seq!['\u{66}', '\u{307}'])
} else {
None
}
} else {
if v == 0x1E20 {
Some(seq!['\u{47}', '\u{304}'])
} else {
None
}
}
} else {
if v < 0x1E22 {
if v == 0x1E21 {
Some(seq!['\u{67}', '\u{304}'])
} else {
None
}
} else {
if v == 0x1E22 {
Some(seq!['\u{48}', '\u{307}'])
} else {
None
}
}
}
}
}
}
}
} else {
if v < 0x1E43 {
if v < 0x1E33 {
if v < 0x1E2B {
if v < 0x1E27 {
if v < 0x1E25 {
if v < 0x1E24 {
if v == 0x1E23 {
Some(seq!['\u{68}', '\u{307}'])
} else {
None
}
} else {
if v == 0x1E24 {
Some(seq!['\u{48}', '\u{323}'])
} else {
None
}
}
} else {
if v < 0x1E26 {
if v == 0x1E25 {
Some(seq!['\u{68}', '\u{323}'])
} else {
None
}
} else {
if v == 0x1E26 {
Some(seq!['\u{48}', '\u{308}'])
} else {
None
}
}
}
} else {
if v < 0x1E29 {
if v < 0x1E28 {
if v == 0x1E27 {
Some(seq!['\u{68}', '\u{308}'])
} else {
None
}
} else {
if v == 0x1E28 {
Some(seq!['\u{48}', '\u{327}'])
} else {
None
}
}
} else {
if v < 0x1E2A {
if v == 0x1E29 {
Some(seq!['\u{68}', '\u{327}'])
} else {
None
}
} else {
if v == 0x1E2A {
Some(seq!['\u{48}', '\u{32E}'])
} else {
None
}
}
}
}
} else {
if v < 0x1E2F {
if v < 0x1E2D {
if v < 0x1E2C {
if v == 0x1E2B {
Some(seq!['\u{68}', '\u{32E}'])
} else {
None
}
} else {
if v == 0x1E2C {
Some(seq!['\u{49}', '\u{330}'])
} else {
None
}
}
} else {
if v < 0x1E2E {
if v == 0x1E2D {
Some(seq!['\u{69}', '\u{330}'])
} else {
None
}
} else {
if v == 0x1E2E {
Some(seq!['\u{49}', '\u{308}', '\u{301}'])
} else {
None
}
}
}
} else {
if v < 0x1E31 {
if v < 0x1E30 {
if v == 0x1E2F {
Some(seq!['\u{69}', '\u{308}', '\u{301}'])
} else {
None
}
} else {
if v == 0x1E30 {
Some(seq!['\u{4B}', '\u{301}'])
} else {
None
}
}
} else {
if v < 0x1E32 {
if v == 0x1E31 {
Some(seq!['\u{6B}', '\u{301}'])
} else {
None
}
} else {
if v == 0x1E32 {
Some(seq!['\u{4B}', '\u{323}'])
} else {
None
}
}
}
}
}
} else {
if v < 0x1E3B {
if v < 0x1E37 {
if v < 0x1E35 {
if v < 0x1E34 {
if v == 0x1E33 {
Some(seq!['\u{6B}', '\u{323}'])
} else {
None
}
} else {
if v == 0x1E34 {
Some(seq!['\u{4B}', '\u{331}'])
} else {
None
}
}
} else {
if v < 0x1E36 {
if v == 0x1E35 {
Some(seq!['\u{6B}', '\u{331}'])
} else {
None
}
} else {
if v == 0x1E36 {
Some(seq!['\u{4C}', '\u{323}'])
} else {
None
}
}
}
} else {
if v < 0x1E39 {
if v < 0x1E38 {
if v == 0x1E37 {
Some(seq!['\u{6C}', '\u{323}'])
} else {
None
}
} else {
if v == 0x1E38 {
Some(seq!['\u{4C}', '\u{323}', '\u{304}'])
} else {
None
}
}
} else {
if v < 0x1E3A {
if v == 0x1E39 {
Some(seq!['\u{6C}', '\u{323}', '\u{304}'])
} else {
None
}
} else {
if v == 0x1E3A {
Some(seq!['\u{4C}', '\u{331}'])
} else {
None
}
}
}
}
} else {
if v < 0x1E3F {
if v < 0x1E3D {
if v < 0x1E3C {
if v == 0x1E3B {
Some(seq!['\u{6C}', '\u{331}'])
} else {
None
}
} else {
if v == 0x1E3C {
Some(seq!['\u{4C}', '\u{32D}'])
} else {
None
}
}
} else {
if v < 0x1E3E {
if v == 0x1E3D {
Some(seq!['\u{6C}', '\u{32D}'])
} else {
None
}
} else {
if v == 0x1E3E {
Some(seq!['\u{4D}', '\u{301}'])
} else {
None
}
}
}
} else {
if v < 0x1E41 {
if v < 0x1E40 {
if v == 0x1E3F {
Some(seq!['\u{6D}', '\u{301}'])
} else {
None
}
} else {
if v == 0x1E40 {
Some(seq!['\u{4D}', '\u{307}'])
} else {
None
}
}
} else {
if v < 0x1E42 {
if v == 0x1E41 {
Some(seq!['\u{6D}', '\u{307}'])
} else {
None
}
} else {
if v == 0x1E42 {
Some(seq!['\u{4D}', '\u{323}'])
} else {
None
}
}
}
}
}
}
} else {
if v < 0x1E53 {
if v < 0x1E4B {
if v < 0x1E47 {
if v < 0x1E45 {
if v < 0x1E44 {
if v == 0x1E43 {
Some(seq!['\u{6D}', '\u{323}'])
} else {
None
}
} else {
if v == 0x1E44 {
Some(seq!['\u{4E}', '\u{307}'])
} else {
None
}
}
} else {
if v < 0x1E46 {
if v == 0x1E45 {
Some(seq!['\u{6E}', '\u{307}'])
} else {
None
}
} else {
if v == 0x1E46 {
Some(seq!['\u{4E}', '\u{323}'])
} else {
None
}
}
}
} else {
if v < 0x1E49 {
if v < 0x1E48 {
if v == 0x1E47 {
Some(seq!['\u{6E}', '\u{323}'])
} else {
None
}
} else {
if v == 0x1E48 {
Some(seq!['\u{4E}', '\u{331}'])
} else {
None
}
}
} else {
if v < 0x1E4A {
if v == 0x1E49 {
Some(seq!['\u{6E}', '\u{331}'])
} else {
None
}
} else {
if v == 0x1E4A {
Some(seq!['\u{4E}', '\u{32D}'])
} else {
None
}
}
}
}
} else {
if v < 0x1E4F {
if v < 0x1E4D {
if v < 0x1E4C {
if v == 0x1E4B {
Some(seq!['\u{6E}', '\u{32D}'])
} else {
None
}
} else {
if v == 0x1E4C {
Some(seq!['\u{4F}', '\u{303}', '\u{301}'])
} else {
None
}
}
} else {
if v < 0x1E4E {
if v == 0x1E4D {
Some(seq!['\u{6F}', '\u{303}', '\u{301}'])
} else {
None
}
} else {
if v == 0x1E4E {
Some(seq!['\u{4F}', '\u{303}', '\u{308}'])
} else {
None
}
}
}
} else {
if v < 0x1E51 {
if v < 0x1E50 {
if v == 0x1E4F {
Some(seq!['\u{6F}', '\u{303}', '\u{308}'])
} else {
None
}
} else {
if v == 0x1E50 {
Some(seq!['\u{4F}', '\u{304}', '\u{300}'])
} else {
None
}
}
} else {
if v < 0x1E52 {
if v == 0x1E51 {
Some(seq!['\u{6F}', '\u{304}', '\u{300}'])
} else {
None
}
} else {
if v == 0x1E52 {
Some(seq!['\u{4F}', '\u{304}', '\u{301}'])
} else {
None
}
}
}
}
}
} else {
if v < 0x1E5B {
if v < 0x1E57 {
if v < 0x1E55 {
if v < 0x1E54 {
if v == 0x1E53 {
Some(seq!['\u{6F}', '\u{304}', '\u{301}'])
} else {
None
}
} else {
if v == 0x1E54 {
Some(seq!['\u{50}', '\u{301}'])
} else {
None
}
}
} else {
if v < 0x1E56 {
if v == 0x1E55 {
Some(seq!['\u{70}', '\u{301}'])
} else {
None
}
} else {
if v == 0x1E56 {
Some(seq!['\u{50}', '\u{307}'])
} else {
None
}
}
}
} else {
if v < 0x1E59 {
if v < 0x1E58 {
if v == 0x1E57 {
Some(seq!['\u{70}', '\u{307}'])
} else {
None
}
} else {
if v == 0x1E58 {
Some(seq!['\u{52}', '\u{307}'])
} else {
None
}
}
} else {
if v < 0x1E5A {
if v == 0x1E59 {
Some(seq!['\u{72}', '\u{307}'])
} else {
None
}
} else {
if v == 0x1E5A {
Some(seq!['\u{52}', '\u{323}'])
} else {
None
}
}
}
}
} else {
if v < 0x1E5F {
if v < 0x1E5D {
if v < 0x1E5C {
if v == 0x1E5B {
Some(seq!['\u{72}', '\u{323}'])
} else {
None
}
} else {
if v == 0x1E5C {
Some(seq!['\u{52}', '\u{323}', '\u{304}'])
} else {
None
}
}
} else {
if v < 0x1E5E {
if v == 0x1E5D {
Some(seq!['\u{72}', '\u{323}', '\u{304}'])
} else {
None
}
} else {
if v == 0x1E5E {
Some(seq!['\u{52}', '\u{331}'])
} else {
None
}
}
}
} else {
if v < 0x1E61 {
if v < 0x1E60 {
if v == 0x1E5F {
Some(seq!['\u{72}', '\u{331}'])
} else {
None
}
} else {
if v == 0x1E60 {
Some(seq!['\u{53}', '\u{307}'])
} else {
None
}
}
} else {
if v < 0x1E62 {
if v == 0x1E61 {
Some(seq!['\u{73}', '\u{307}'])
} else {
None
}
} else {
if v < 0x1E63 {
if v == 0x1E62 {
Some(seq!['\u{53}', '\u{323}'])
} else {
None
}
} else {
if v == 0x1E63 {
Some(seq!['\u{73}', '\u{323}'])
} else {
None
}
}
}
}
}
}
}
}
}
}
}
} else {
if v < 0x1F7C {
if v < 0x1EE9 {
if v < 0x1EA9 {
if v < 0x1E84 {
if v < 0x1E74 {
if v < 0x1E6C {
if v < 0x1E68 {
if v < 0x1E66 {
if v < 0x1E65 {
if v == 0x1E64 {
Some(seq!['\u{53}', '\u{301}', '\u{307}'])
} else {
None
}
} else {
if v == 0x1E65 {
Some(seq!['\u{73}', '\u{301}', '\u{307}'])
} else {
None
}
}
} else {
if v < 0x1E67 {
if v == 0x1E66 {
Some(seq!['\u{53}', '\u{30C}', '\u{307}'])
} else {
None
}
} else {
if v == 0x1E67 {
Some(seq!['\u{73}', '\u{30C}', '\u{307}'])
} else {
None
}
}
}
} else {
if v < 0x1E6A {
if v < 0x1E69 {
if v == 0x1E68 {
Some(seq!['\u{53}', '\u{323}', '\u{307}'])
} else {
None
}
} else {
if v == 0x1E69 {
Some(seq!['\u{73}', '\u{323}', '\u{307}'])
} else {
None
}
}
} else {
if v < 0x1E6B {
if v == 0x1E6A {
Some(seq!['\u{54}', '\u{307}'])
} else {
None
}
} else {
if v == 0x1E6B {
Some(seq!['\u{74}', '\u{307}'])
} else {
None
}
}
}
}
} else {
if v < 0x1E70 {
if v < 0x1E6E {
if v < 0x1E6D {
if v == 0x1E6C {
Some(seq!['\u{54}', '\u{323}'])
} else {
None
}
} else {
if v == 0x1E6D {
Some(seq!['\u{74}', '\u{323}'])
} else {
None
}
}
} else {
if v < 0x1E6F {
if v == 0x1E6E {
Some(seq!['\u{54}', '\u{331}'])
} else {
None
}
} else {
if v == 0x1E6F {
Some(seq!['\u{74}', '\u{331}'])
} else {
None
}
}
}
} else {
if v < 0x1E72 {
if v < 0x1E71 {
if v == 0x1E70 {
Some(seq!['\u{54}', '\u{32D}'])
} else {
None
}
} else {
if v == 0x1E71 {
Some(seq!['\u{74}', '\u{32D}'])
} else {
None
}
}
} else {
if v < 0x1E73 {
if v == 0x1E72 {
Some(seq!['\u{55}', '\u{324}'])
} else {
None
}
} else {
if v == 0x1E73 {
Some(seq!['\u{75}', '\u{324}'])
} else {
None
}
}
}
}
}
} else {
if v < 0x1E7C {
if v < 0x1E78 {
if v < 0x1E76 {
if v < 0x1E75 {
if v == 0x1E74 {
Some(seq!['\u{55}', '\u{330}'])
} else {
None
}
} else {
if v == 0x1E75 {
Some(seq!['\u{75}', '\u{330}'])
} else {
None
}
}
} else {
if v < 0x1E77 {
if v == 0x1E76 {
Some(seq!['\u{55}', '\u{32D}'])
} else {
None
}
} else {
if v == 0x1E77 {
Some(seq!['\u{75}', '\u{32D}'])
} else {
None
}
}
}
} else {
if v < 0x1E7A {
if v < 0x1E79 {
if v == 0x1E78 {
Some(seq!['\u{55}', '\u{303}', '\u{301}'])
} else {
None
}
} else {
if v == 0x1E79 {
Some(seq!['\u{75}', '\u{303}', '\u{301}'])
} else {
None
}
}
} else {
if v < 0x1E7B {
if v == 0x1E7A {
Some(seq!['\u{55}', '\u{304}', '\u{308}'])
} else {
None
}
} else {
if v == 0x1E7B {
Some(seq!['\u{75}', '\u{304}', '\u{308}'])
} else {
None
}
}
}
}
} else {
if v < 0x1E80 {
if v < 0x1E7E {
if v < 0x1E7D {
if v == 0x1E7C {
Some(seq!['\u{56}', '\u{303}'])
} else {
None
}
} else {
if v == 0x1E7D {
Some(seq!['\u{76}', '\u{303}'])
} else {
None
}
}
} else {
if v < 0x1E7F {
if v == 0x1E7E {
Some(seq!['\u{56}', '\u{323}'])
} else {
None
}
} else {
if v == 0x1E7F {
Some(seq!['\u{76}', '\u{323}'])
} else {
None
}
}
}
} else {
if v < 0x1E82 {
if v < 0x1E81 {
if v == 0x1E80 {
Some(seq!['\u{57}', '\u{300}'])
} else {
None
}
} else {
if v == 0x1E81 {
Some(seq!['\u{77}', '\u{300}'])
} else {
None
}
}
} else {
if v < 0x1E83 {
if v == 0x1E82 {
Some(seq!['\u{57}', '\u{301}'])
} else {
None
}
} else {
if v == 0x1E83 {
Some(seq!['\u{77}', '\u{301}'])
} else {
None
}
}
}
}
}
}
} else {
if v < 0x1E94 {
if v < 0x1E8C {
if v < 0x1E88 {
if v < 0x1E86 {
if v < 0x1E85 {
if v == 0x1E84 {
Some(seq!['\u{57}', '\u{308}'])
} else {
None
}
} else {
if v == 0x1E85 {
Some(seq!['\u{77}', '\u{308}'])
} else {
None
}
}
} else {
if v < 0x1E87 {
if v == 0x1E86 {
Some(seq!['\u{57}', '\u{307}'])
} else {
None
}
} else {
if v == 0x1E87 {
Some(seq!['\u{77}', '\u{307}'])
} else {
None
}
}
}
} else {
if v < 0x1E8A {
if v < 0x1E89 {
if v == 0x1E88 {
Some(seq!['\u{57}', '\u{323}'])
} else {
None
}
} else {
if v == 0x1E89 {
Some(seq!['\u{77}', '\u{323}'])
} else {
None
}
}
} else {
if v < 0x1E8B {
if v == 0x1E8A {
Some(seq!['\u{58}', '\u{307}'])
} else {
None
}
} else {
if v == 0x1E8B {
Some(seq!['\u{78}', '\u{307}'])
} else {
None
}
}
}
}
} else {
if v < 0x1E90 {
if v < 0x1E8E {
if v < 0x1E8D {
if v == 0x1E8C {
Some(seq!['\u{58}', '\u{308}'])
} else {
None
}
} else {
if v == 0x1E8D {
Some(seq!['\u{78}', '\u{308}'])
} else {
None
}
}
} else {
if v < 0x1E8F {
if v == 0x1E8E {
Some(seq!['\u{59}', '\u{307}'])
} else {
None
}
} else {
if v == 0x1E8F {
Some(seq!['\u{79}', '\u{307}'])
} else {
None
}
}
}
} else {
if v < 0x1E92 {
if v < 0x1E91 {
if v == 0x1E90 {
Some(seq!['\u{5A}', '\u{302}'])
} else {
None
}
} else {
if v == 0x1E91 {
Some(seq!['\u{7A}', '\u{302}'])
} else {
None
}
}
} else {
if v < 0x1E93 {
if v == 0x1E92 {
Some(seq!['\u{5A}', '\u{323}'])
} else {
None
}
} else {
if v == 0x1E93 {
Some(seq!['\u{7A}', '\u{323}'])
} else {
None
}
}
}
}
}
} else {
if v < 0x1EA1 {
if v < 0x1E98 {
if v < 0x1E96 {
if v < 0x1E95 {
if v == 0x1E94 {
Some(seq!['\u{5A}', '\u{331}'])
} else {
None
}
} else {
if v == 0x1E95 {
Some(seq!['\u{7A}', '\u{331}'])
} else {
None
}
}
} else {
if v < 0x1E97 {
if v == 0x1E96 {
Some(seq!['\u{68}', '\u{331}'])
} else {
None
}
} else {
if v == 0x1E97 {
Some(seq!['\u{74}', '\u{308}'])
} else {
None
}
}
}
} else {
if v < 0x1E9B {
if v < 0x1E99 {
if v == 0x1E98 {
Some(seq!['\u{77}', '\u{30A}'])
} else {
None
}
} else {
if v == 0x1E99 {
Some(seq!['\u{79}', '\u{30A}'])
} else {
None
}
}
} else {
if v < 0x1EA0 {
if v == 0x1E9B {
Some(seq!['\u{17F}', '\u{307}'])
} else {
None
}
} else {
if v == 0x1EA0 {
Some(seq!['\u{41}', '\u{323}'])
} else {
None
}
}
}
}
} else {
if v < 0x1EA5 {
if v < 0x1EA3 {
if v < 0x1EA2 {
if v == 0x1EA1 {
Some(seq!['\u{61}', '\u{323}'])
} else {
None
}
} else {
if v == 0x1EA2 {
Some(seq!['\u{41}', '\u{309}'])
} else {
None
}
}
} else {
if v < 0x1EA4 {
if v == 0x1EA3 {
Some(seq!['\u{61}', '\u{309}'])
} else {
None
}
} else {
if v == 0x1EA4 {
Some(seq!['\u{41}', '\u{302}', '\u{301}'])
} else {
None
}
}
}
} else {
if v < 0x1EA7 {
if v < 0x1EA6 {
if v == 0x1EA5 {
Some(seq!['\u{61}', '\u{302}', '\u{301}'])
} else {
None
}
} else {
if v == 0x1EA6 {
Some(seq!['\u{41}', '\u{302}', '\u{300}'])
} else {
None
}
}
} else {
if v < 0x1EA8 {
if v == 0x1EA7 {
Some(seq!['\u{61}', '\u{302}', '\u{300}'])
} else {
None
}
} else {
if v == 0x1EA8 {
Some(seq!['\u{41}', '\u{302}', '\u{309}'])
} else {
None
}
}
}
}
}
}
}
} else {
if v < 0x1EC9 {
if v < 0x1EB9 {
if v < 0x1EB1 {
if v < 0x1EAD {
if v < 0x1EAB {
if v < 0x1EAA {
if v == 0x1EA9 {
Some(seq!['\u{61}', '\u{302}', '\u{309}'])
} else {
None
}
} else {
if v == 0x1EAA {
Some(seq!['\u{41}', '\u{302}', '\u{303}'])
} else {
None
}
}
} else {
if v < 0x1EAC {
if v == 0x1EAB {
Some(seq!['\u{61}', '\u{302}', '\u{303}'])
} else {
None
}
} else {
if v == 0x1EAC {
Some(seq!['\u{41}', '\u{323}', '\u{302}'])
} else {
None
}
}
}
} else {
if v < 0x1EAF {
if v < 0x1EAE {
if v == 0x1EAD {
Some(seq!['\u{61}', '\u{323}', '\u{302}'])
} else {
None
}
} else {
if v == 0x1EAE {
Some(seq!['\u{41}', '\u{306}', '\u{301}'])
} else {
None
}
}
} else {
if v < 0x1EB0 {
if v == 0x1EAF {
Some(seq!['\u{61}', '\u{306}', '\u{301}'])
} else {
None
}
} else {
if v == 0x1EB0 {
Some(seq!['\u{41}', '\u{306}', '\u{300}'])
} else {
None
}
}
}
}
} else {
if v < 0x1EB5 {
if v < 0x1EB3 {
if v < 0x1EB2 {
if v == 0x1EB1 {
Some(seq!['\u{61}', '\u{306}', '\u{300}'])
} else {
None
}
} else {
if v == 0x1EB2 {
Some(seq!['\u{41}', '\u{306}', '\u{309}'])
} else {
None
}
}
} else {
if v < 0x1EB4 {
if v == 0x1EB3 {
Some(seq!['\u{61}', '\u{306}', '\u{309}'])
} else {
None
}
} else {
if v == 0x1EB4 {
Some(seq!['\u{41}', '\u{306}', '\u{303}'])
} else {
None
}
}
}
} else {
if v < 0x1EB7 {
if v < 0x1EB6 {
if v == 0x1EB5 {
Some(seq!['\u{61}', '\u{306}', '\u{303}'])
} else {
None
}
} else {
if v == 0x1EB6 {
Some(seq!['\u{41}', '\u{323}', '\u{306}'])
} else {
None
}
}
} else {
if v < 0x1EB8 {
if v == 0x1EB7 {
Some(seq!['\u{61}', '\u{323}', '\u{306}'])
} else {
None
}
} else {
if v == 0x1EB8 {
Some(seq!['\u{45}', '\u{323}'])
} else {
None
}
}
}
}
}
} else {
if v < 0x1EC1 {
if v < 0x1EBD {
if v < 0x1EBB {
if v < 0x1EBA {
if v == 0x1EB9 {
Some(seq!['\u{65}', '\u{323}'])
} else {
None
}
} else {
if v == 0x1EBA {
Some(seq!['\u{45}', '\u{309}'])
} else {
None
}
}
} else {
if v < 0x1EBC {
if v == 0x1EBB {
Some(seq!['\u{65}', '\u{309}'])
} else {
None
}
} else {
if v == 0x1EBC {
Some(seq!['\u{45}', '\u{303}'])
} else {
None
}
}
}
} else {
if v < 0x1EBF {
if v < 0x1EBE {
if v == 0x1EBD {
Some(seq!['\u{65}', '\u{303}'])
} else {
None
}
} else {
if v == 0x1EBE {
Some(seq!['\u{45}', '\u{302}', '\u{301}'])
} else {
None
}
}
} else {
if v < 0x1EC0 {
if v == 0x1EBF {
Some(seq!['\u{65}', '\u{302}', '\u{301}'])
} else {
None
}
} else {
if v == 0x1EC0 {
Some(seq!['\u{45}', '\u{302}', '\u{300}'])
} else {
None
}
}
}
}
} else {
if v < 0x1EC5 {
if v < 0x1EC3 {
if v < 0x1EC2 {
if v == 0x1EC1 {
Some(seq!['\u{65}', '\u{302}', '\u{300}'])
} else {
None
}
} else {
if v == 0x1EC2 {
Some(seq!['\u{45}', '\u{302}', '\u{309}'])
} else {
None
}
}
} else {
if v < 0x1EC4 {
if v == 0x1EC3 {
Some(seq!['\u{65}', '\u{302}', '\u{309}'])
} else {
None
}
} else {
if v == 0x1EC4 {
Some(seq!['\u{45}', '\u{302}', '\u{303}'])
} else {
None
}
}
}
} else {
if v < 0x1EC7 {
if v < 0x1EC6 {
if v == 0x1EC5 {
Some(seq!['\u{65}', '\u{302}', '\u{303}'])
} else {
None
}
} else {
if v == 0x1EC6 {
Some(seq!['\u{45}', '\u{323}', '\u{302}'])
} else {
None
}
}
} else {
if v < 0x1EC8 {
if v == 0x1EC7 {
Some(seq!['\u{65}', '\u{323}', '\u{302}'])
} else {
None
}
} else {
if v == 0x1EC8 {
Some(seq!['\u{49}', '\u{309}'])
} else {
None
}
}
}
}
}
}
} else {
if v < 0x1ED9 {
if v < 0x1ED1 {
if v < 0x1ECD {
if v < 0x1ECB {
if v < 0x1ECA {
if v == 0x1EC9 {
Some(seq!['\u{69}', '\u{309}'])
} else {
None
}
} else {
if v == 0x1ECA {
Some(seq!['\u{49}', '\u{323}'])
} else {
None
}
}
} else {
if v < 0x1ECC {
if v == 0x1ECB {
Some(seq!['\u{69}', '\u{323}'])
} else {
None
}
} else {
if v == 0x1ECC {
Some(seq!['\u{4F}', '\u{323}'])
} else {
None
}
}
}
} else {
if v < 0x1ECF {
if v < 0x1ECE {
if v == 0x1ECD {
Some(seq!['\u{6F}', '\u{323}'])
} else {
None
}
} else {
if v == 0x1ECE {
Some(seq!['\u{4F}', '\u{309}'])
} else {
None
}
}
} else {
if v < 0x1ED0 {
if v == 0x1ECF {
Some(seq!['\u{6F}', '\u{309}'])
} else {
None
}
} else {
if v == 0x1ED0 {
Some(seq!['\u{4F}', '\u{302}', '\u{301}'])
} else {
None
}
}
}
}
} else {
if v < 0x1ED5 {
if v < 0x1ED3 {
if v < 0x1ED2 {
if v == 0x1ED1 {
Some(seq!['\u{6F}', '\u{302}', '\u{301}'])
} else {
None
}
} else {
if v == 0x1ED2 {
Some(seq!['\u{4F}', '\u{302}', '\u{300}'])
} else {
None
}
}
} else {
if v < 0x1ED4 {
if v == 0x1ED3 {
Some(seq!['\u{6F}', '\u{302}', '\u{300}'])
} else {
None
}
} else {
if v == 0x1ED4 {
Some(seq!['\u{4F}', '\u{302}', '\u{309}'])
} else {
None
}
}
}
} else {
if v < 0x1ED7 {
if v < 0x1ED6 {
if v == 0x1ED5 {
Some(seq!['\u{6F}', '\u{302}', '\u{309}'])
} else {
None
}
} else {
if v == 0x1ED6 {
Some(seq!['\u{4F}', '\u{302}', '\u{303}'])
} else {
None
}
}
} else {
if v < 0x1ED8 {
if v == 0x1ED7 {
Some(seq!['\u{6F}', '\u{302}', '\u{303}'])
} else {
None
}
} else {
if v == 0x1ED8 {
Some(seq!['\u{4F}', '\u{323}', '\u{302}'])
} else {
None
}
}
}
}
}
} else {
if v < 0x1EE1 {
if v < 0x1EDD {
if v < 0x1EDB {
if v < 0x1EDA {
if v == 0x1ED9 {
Some(seq!['\u{6F}', '\u{323}', '\u{302}'])
} else {
None
}
} else {
if v == 0x1EDA {
Some(seq!['\u{4F}', '\u{31B}', '\u{301}'])
} else {
None
}
}
} else {
if v < 0x1EDC {
if v == 0x1EDB {
Some(seq!['\u{6F}', '\u{31B}', '\u{301}'])
} else {
None
}
} else {
if v == 0x1EDC {
Some(seq!['\u{4F}', '\u{31B}', '\u{300}'])
} else {
None
}
}
}
} else {
if v < 0x1EDF {
if v < 0x1EDE {
if v == 0x1EDD {
Some(seq!['\u{6F}', '\u{31B}', '\u{300}'])
} else {
None
}
} else {
if v == 0x1EDE {
Some(seq!['\u{4F}', '\u{31B}', '\u{309}'])
} else {
None
}
}
} else {
if v < 0x1EE0 {
if v == 0x1EDF {
Some(seq!['\u{6F}', '\u{31B}', '\u{309}'])
} else {
None
}
} else {
if v == 0x1EE0 {
Some(seq!['\u{4F}', '\u{31B}', '\u{303}'])
} else {
None
}
}
}
}
} else {
if v < 0x1EE5 {
if v < 0x1EE3 {
if v < 0x1EE2 {
if v == 0x1EE1 {
Some(seq!['\u{6F}', '\u{31B}', '\u{303}'])
} else {
None
}
} else {
if v == 0x1EE2 {
Some(seq!['\u{4F}', '\u{31B}', '\u{323}'])
} else {
None
}
}
} else {
if v < 0x1EE4 {
if v == 0x1EE3 {
Some(seq!['\u{6F}', '\u{31B}', '\u{323}'])
} else {
None
}
} else {
if v == 0x1EE4 {
Some(seq!['\u{55}', '\u{323}'])
} else {
None
}
}
}
} else {
if v < 0x1EE7 {
if v < 0x1EE6 {
if v == 0x1EE5 {
Some(seq!['\u{75}', '\u{323}'])
} else {
None
}
} else {
if v == 0x1EE6 {
Some(seq!['\u{55}', '\u{309}'])
} else {
None
}
}
} else {
if v < 0x1EE8 {
if v == 0x1EE7 {
Some(seq!['\u{75}', '\u{309}'])
} else {
None
}
} else {
if v == 0x1EE8 {
Some(seq!['\u{55}', '\u{31B}', '\u{301}'])
} else {
None
}
}
}
}
}
}
}
}
} else {
if v < 0x1F33 {
if v < 0x1F0F {
if v < 0x1EF9 {
if v < 0x1EF1 {
if v < 0x1EED {
if v < 0x1EEB {
if v < 0x1EEA {
if v == 0x1EE9 {
Some(seq!['\u{75}', '\u{31B}', '\u{301}'])
} else {
None
}
} else {
if v == 0x1EEA {
Some(seq!['\u{55}', '\u{31B}', '\u{300}'])
} else {
None
}
}
} else {
if v < 0x1EEC {
if v == 0x1EEB {
Some(seq!['\u{75}', '\u{31B}', '\u{300}'])
} else {
None
}
} else {
if v == 0x1EEC {
Some(seq!['\u{55}', '\u{31B}', '\u{309}'])
} else {
None
}
}
}
} else {
if v < 0x1EEF {
if v < 0x1EEE {
if v == 0x1EED {
Some(seq!['\u{75}', '\u{31B}', '\u{309}'])
} else {
None
}
} else {
if v == 0x1EEE {
Some(seq!['\u{55}', '\u{31B}', '\u{303}'])
} else {
None
}
}
} else {
if v < 0x1EF0 {
if v == 0x1EEF {
Some(seq!['\u{75}', '\u{31B}', '\u{303}'])
} else {
None
}
} else {
if v == 0x1EF0 {
Some(seq!['\u{55}', '\u{31B}', '\u{323}'])
} else {
None
}
}
}
}
} else {
if v < 0x1EF5 {
if v < 0x1EF3 {
if v < 0x1EF2 {
if v == 0x1EF1 {
Some(seq!['\u{75}', '\u{31B}', '\u{323}'])
} else {
None
}
} else {
if v == 0x1EF2 {
Some(seq!['\u{59}', '\u{300}'])
} else {
None
}
}
} else {
if v < 0x1EF4 {
if v == 0x1EF3 {
Some(seq!['\u{79}', '\u{300}'])
} else {
None
}
} else {
if v == 0x1EF4 {
Some(seq!['\u{59}', '\u{323}'])
} else {
None
}
}
}
} else {
if v < 0x1EF7 {
if v < 0x1EF6 {
if v == 0x1EF5 {
Some(seq!['\u{79}', '\u{323}'])
} else {
None
}
} else {
if v == 0x1EF6 {
Some(seq!['\u{59}', '\u{309}'])
} else {
None
}
}
} else {
if v < 0x1EF8 {
if v == 0x1EF7 {
Some(seq!['\u{79}', '\u{309}'])
} else {
None
}
} else {
if v == 0x1EF8 {
Some(seq!['\u{59}', '\u{303}'])
} else {
None
}
}
}
}
}
} else {
if v < 0x1F07 {
if v < 0x1F03 {
if v < 0x1F01 {
if v < 0x1F00 {
if v == 0x1EF9 {
Some(seq!['\u{79}', '\u{303}'])
} else {
None
}
} else {
if v == 0x1F00 {
Some(seq!['\u{3B1}', '\u{313}'])
} else {
None
}
}
} else {
if v < 0x1F02 {
if v == 0x1F01 {
Some(seq!['\u{3B1}', '\u{314}'])
} else {
None
}
} else {
if v == 0x1F02 {
Some(seq!['\u{3B1}', '\u{313}', '\u{300}'])
} else {
None
}
}
}
} else {
if v < 0x1F05 {
if v < 0x1F04 {
if v == 0x1F03 {
Some(seq!['\u{3B1}', '\u{314}', '\u{300}'])
} else {
None
}
} else {
if v == 0x1F04 {
Some(seq!['\u{3B1}', '\u{313}', '\u{301}'])
} else {
None
}
}
} else {
if v < 0x1F06 {
if v == 0x1F05 {
Some(seq!['\u{3B1}', '\u{314}', '\u{301}'])
} else {
None
}
} else {
if v == 0x1F06 {
Some(seq!['\u{3B1}', '\u{313}', '\u{342}'])
} else {
None
}
}
}
}
} else {
if v < 0x1F0B {
if v < 0x1F09 {
if v < 0x1F08 {
if v == 0x1F07 {
Some(seq!['\u{3B1}', '\u{314}', '\u{342}'])
} else {
None
}
} else {
if v == 0x1F08 {
Some(seq!['\u{391}', '\u{313}'])
} else {
None
}
}
} else {
if v < 0x1F0A {
if v == 0x1F09 {
Some(seq!['\u{391}', '\u{314}'])
} else {
None
}
} else {
if v == 0x1F0A {
Some(seq!['\u{391}', '\u{313}', '\u{300}'])
} else {
None
}
}
}
} else {
if v < 0x1F0D {
if v < 0x1F0C {
if v == 0x1F0B {
Some(seq!['\u{391}', '\u{314}', '\u{300}'])
} else {
None
}
} else {
if v == 0x1F0C {
Some(seq!['\u{391}', '\u{313}', '\u{301}'])
} else {
None
}
}
} else {
if v < 0x1F0E {
if v == 0x1F0D {
Some(seq!['\u{391}', '\u{314}', '\u{301}'])
} else {
None
}
} else {
if v == 0x1F0E {
Some(seq!['\u{391}', '\u{313}', '\u{342}'])
} else {
None
}
}
}
}
}
}
} else {
if v < 0x1F23 {
if v < 0x1F19 {
if v < 0x1F13 {
if v < 0x1F11 {
if v < 0x1F10 {
if v == 0x1F0F {
Some(seq!['\u{391}', '\u{314}', '\u{342}'])
} else {
None
}
} else {
if v == 0x1F10 {
Some(seq!['\u{3B5}', '\u{313}'])
} else {
None
}
}
} else {
if v < 0x1F12 {
if v == 0x1F11 {
Some(seq!['\u{3B5}', '\u{314}'])
} else {
None
}
} else {
if v == 0x1F12 {
Some(seq!['\u{3B5}', '\u{313}', '\u{300}'])
} else {
None
}
}
}
} else {
if v < 0x1F15 {
if v < 0x1F14 {
if v == 0x1F13 {
Some(seq!['\u{3B5}', '\u{314}', '\u{300}'])
} else {
None
}
} else {
if v == 0x1F14 {
Some(seq!['\u{3B5}', '\u{313}', '\u{301}'])
} else {
None
}
}
} else {
if v < 0x1F18 {
if v == 0x1F15 {
Some(seq!['\u{3B5}', '\u{314}', '\u{301}'])
} else {
None
}
} else {
if v == 0x1F18 {
Some(seq!['\u{395}', '\u{313}'])
} else {
None
}
}
}
}
} else {
if v < 0x1F1D {
if v < 0x1F1B {
if v < 0x1F1A {
if v == 0x1F19 {
Some(seq!['\u{395}', '\u{314}'])
} else {
None
}
} else {
if v == 0x1F1A {
Some(seq!['\u{395}', '\u{313}', '\u{300}'])
} else {
None
}
}
} else {
if v < 0x1F1C {
if v == 0x1F1B {
Some(seq!['\u{395}', '\u{314}', '\u{300}'])
} else {
None
}
} else {
if v == 0x1F1C {
Some(seq!['\u{395}', '\u{313}', '\u{301}'])
} else {
None
}
}
}
} else {
if v < 0x1F21 {
if v < 0x1F20 {
if v == 0x1F1D {
Some(seq!['\u{395}', '\u{314}', '\u{301}'])
} else {
None
}
} else {
if v == 0x1F20 {
Some(seq!['\u{3B7}', '\u{313}'])
} else {
None
}
}
} else {
if v < 0x1F22 {
if v == 0x1F21 {
Some(seq!['\u{3B7}', '\u{314}'])
} else {
None
}
} else {
if v == 0x1F22 {
Some(seq!['\u{3B7}', '\u{313}', '\u{300}'])
} else {
None
}
}
}
}
}
} else {
if v < 0x1F2B {
if v < 0x1F27 {
if v < 0x1F25 {
if v < 0x1F24 {
if v == 0x1F23 {
Some(seq!['\u{3B7}', '\u{314}', '\u{300}'])
} else {
None
}
} else {
if v == 0x1F24 {
Some(seq!['\u{3B7}', '\u{313}', '\u{301}'])
} else {
None
}
}
} else {
if v < 0x1F26 {
if v == 0x1F25 {
Some(seq!['\u{3B7}', '\u{314}', '\u{301}'])
} else {
None
}
} else {
if v == 0x1F26 {
Some(seq!['\u{3B7}', '\u{313}', '\u{342}'])
} else {
None
}
}
}
} else {
if v < 0x1F29 {
if v < 0x1F28 {
if v == 0x1F27 {
Some(seq!['\u{3B7}', '\u{314}', '\u{342}'])
} else {
None
}
} else {
if v == 0x1F28 {
Some(seq!['\u{397}', '\u{313}'])
} else {
None
}
}
} else {
if v < 0x1F2A {
if v == 0x1F29 {
Some(seq!['\u{397}', '\u{314}'])
} else {
None
}
} else {
if v == 0x1F2A {
Some(seq!['\u{397}', '\u{313}', '\u{300}'])
} else {
None
}
}
}
}
} else {
if v < 0x1F2F {
if v < 0x1F2D {
if v < 0x1F2C {
if v == 0x1F2B {
Some(seq!['\u{397}', '\u{314}', '\u{300}'])
} else {
None
}
} else {
if v == 0x1F2C {
Some(seq!['\u{397}', '\u{313}', '\u{301}'])
} else {
None
}
}
} else {
if v < 0x1F2E {
if v == 0x1F2D {
Some(seq!['\u{397}', '\u{314}', '\u{301}'])
} else {
None
}
} else {
if v == 0x1F2E {
Some(seq!['\u{397}', '\u{313}', '\u{342}'])
} else {
None
}
}
}
} else {
if v < 0x1F31 {
if v < 0x1F30 {
if v == 0x1F2F {
Some(seq!['\u{397}', '\u{314}', '\u{342}'])
} else {
None
}
} else {
if v == 0x1F30 {
Some(seq!['\u{3B9}', '\u{313}'])
} else {
None
}
}
} else {
if v < 0x1F32 {
if v == 0x1F31 {
Some(seq!['\u{3B9}', '\u{314}'])
} else {
None
}
} else {
if v == 0x1F32 {
Some(seq!['\u{3B9}', '\u{313}', '\u{300}'])
} else {
None
}
}
}
}
}
}
}
} else {
if v < 0x1F57 {
if v < 0x1F43 {
if v < 0x1F3B {
if v < 0x1F37 {
if v < 0x1F35 {
if v < 0x1F34 {
if v == 0x1F33 {
Some(seq!['\u{3B9}', '\u{314}', '\u{300}'])
} else {
None
}
} else {
if v == 0x1F34 {
Some(seq!['\u{3B9}', '\u{313}', '\u{301}'])
} else {
None
}
}
} else {
if v < 0x1F36 {
if v == 0x1F35 {
Some(seq!['\u{3B9}', '\u{314}', '\u{301}'])
} else {
None
}
} else {
if v == 0x1F36 {
Some(seq!['\u{3B9}', '\u{313}', '\u{342}'])
} else {
None
}
}
}
} else {
if v < 0x1F39 {
if v < 0x1F38 {
if v == 0x1F37 {
Some(seq!['\u{3B9}', '\u{314}', '\u{342}'])
} else {
None
}
} else {
if v == 0x1F38 {
Some(seq!['\u{399}', '\u{313}'])
} else {
None
}
}
} else {
if v < 0x1F3A {
if v == 0x1F39 {
Some(seq!['\u{399}', '\u{314}'])
} else {
None
}
} else {
if v == 0x1F3A {
Some(seq!['\u{399}', '\u{313}', '\u{300}'])
} else {
None
}
}
}
}
} else {
if v < 0x1F3F {
if v < 0x1F3D {
if v < 0x1F3C {
if v == 0x1F3B {
Some(seq!['\u{399}', '\u{314}', '\u{300}'])
} else {
None
}
} else {
if v == 0x1F3C {
Some(seq!['\u{399}', '\u{313}', '\u{301}'])
} else {
None
}
}
} else {
if v < 0x1F3E {
if v == 0x1F3D {
Some(seq!['\u{399}', '\u{314}', '\u{301}'])
} else {
None
}
} else {
if v == 0x1F3E {
Some(seq!['\u{399}', '\u{313}', '\u{342}'])
} else {
None
}
}
}
} else {
if v < 0x1F41 {
if v < 0x1F40 {
if v == 0x1F3F {
Some(seq!['\u{399}', '\u{314}', '\u{342}'])
} else {
None
}
} else {
if v == 0x1F40 {
Some(seq!['\u{3BF}', '\u{313}'])
} else {
None
}
}
} else {
if v < 0x1F42 {
if v == 0x1F41 {
Some(seq!['\u{3BF}', '\u{314}'])
} else {
None
}
} else {
if v == 0x1F42 {
Some(seq!['\u{3BF}', '\u{313}', '\u{300}'])
} else {
None
}
}
}
}
}
} else {
if v < 0x1F4D {
if v < 0x1F49 {
if v < 0x1F45 {
if v < 0x1F44 {
if v == 0x1F43 {
Some(seq!['\u{3BF}', '\u{314}', '\u{300}'])
} else {
None
}
} else {
if v == 0x1F44 {
Some(seq!['\u{3BF}', '\u{313}', '\u{301}'])
} else {
None
}
}
} else {
if v < 0x1F48 {
if v == 0x1F45 {
Some(seq!['\u{3BF}', '\u{314}', '\u{301}'])
} else {
None
}
} else {
if v == 0x1F48 {
Some(seq!['\u{39F}', '\u{313}'])
} else {
None
}
}
}
} else {
if v < 0x1F4B {
if v < 0x1F4A {
if v == 0x1F49 {
Some(seq!['\u{39F}', '\u{314}'])
} else {
None
}
} else {
if v == 0x1F4A {
Some(seq!['\u{39F}', '\u{313}', '\u{300}'])
} else {
None
}
}
} else {
if v < 0x1F4C {
if v == 0x1F4B {
Some(seq!['\u{39F}', '\u{314}', '\u{300}'])
} else {
None
}
} else {
if v == 0x1F4C {
Some(seq!['\u{39F}', '\u{313}', '\u{301}'])
} else {
None
}
}
}
}
} else {
if v < 0x1F53 {
if v < 0x1F51 {
if v < 0x1F50 {
if v == 0x1F4D {
Some(seq!['\u{39F}', '\u{314}', '\u{301}'])
} else {
None
}
} else {
if v == 0x1F50 {
Some(seq!['\u{3C5}', '\u{313}'])
} else {
None
}
}
} else {
if v < 0x1F52 {
if v == 0x1F51 {
Some(seq!['\u{3C5}', '\u{314}'])
} else {
None
}
} else {
if v == 0x1F52 {
Some(seq!['\u{3C5}', '\u{313}', '\u{300}'])
} else {
None
}
}
}
} else {
if v < 0x1F55 {
if v < 0x1F54 {
if v == 0x1F53 {
Some(seq!['\u{3C5}', '\u{314}', '\u{300}'])
} else {
None
}
} else {
if v == 0x1F54 {
Some(seq!['\u{3C5}', '\u{313}', '\u{301}'])
} else {
None
}
}
} else {
if v < 0x1F56 {
if v == 0x1F55 {
Some(seq!['\u{3C5}', '\u{314}', '\u{301}'])
} else {
None
}
} else {
if v == 0x1F56 {
Some(seq!['\u{3C5}', '\u{313}', '\u{342}'])
} else {
None
}
}
}
}
}
}
} else {
if v < 0x1F6B {
if v < 0x1F63 {
if v < 0x1F5F {
if v < 0x1F5B {
if v < 0x1F59 {
if v == 0x1F57 {
Some(seq!['\u{3C5}', '\u{314}', '\u{342}'])
} else {
None
}
} else {
if v == 0x1F59 {
Some(seq!['\u{3A5}', '\u{314}'])
} else {
None
}
}
} else {
if v < 0x1F5D {
if v == 0x1F5B {
Some(seq!['\u{3A5}', '\u{314}', '\u{300}'])
} else {
None
}
} else {
if v == 0x1F5D {
Some(seq!['\u{3A5}', '\u{314}', '\u{301}'])
} else {
None
}
}
}
} else {
if v < 0x1F61 {
if v < 0x1F60 {
if v == 0x1F5F {
Some(seq!['\u{3A5}', '\u{314}', '\u{342}'])
} else {
None
}
} else {
if v == 0x1F60 {
Some(seq!['\u{3C9}', '\u{313}'])
} else {
None
}
}
} else {
if v < 0x1F62 {
if v == 0x1F61 {
Some(seq!['\u{3C9}', '\u{314}'])
} else {
None
}
} else {
if v == 0x1F62 {
Some(seq!['\u{3C9}', '\u{313}', '\u{300}'])
} else {
None
}
}
}
}
} else {
if v < 0x1F67 {
if v < 0x1F65 {
if v < 0x1F64 {
if v == 0x1F63 {
Some(seq!['\u{3C9}', '\u{314}', '\u{300}'])
} else {
None
}
} else {
if v == 0x1F64 {
Some(seq!['\u{3C9}', '\u{313}', '\u{301}'])
} else {
None
}
}
} else {
if v < 0x1F66 {
if v == 0x1F65 {
Some(seq!['\u{3C9}', '\u{314}', '\u{301}'])
} else {
None
}
} else {
if v == 0x1F66 {
Some(seq!['\u{3C9}', '\u{313}', '\u{342}'])
} else {
None
}
}
}
} else {
if v < 0x1F69 {
if v < 0x1F68 {
if v == 0x1F67 {
Some(seq!['\u{3C9}', '\u{314}', '\u{342}'])
} else {
None
}
} else {
if v == 0x1F68 {
Some(seq!['\u{3A9}', '\u{313}'])
} else {
None
}
}
} else {
if v < 0x1F6A {
if v == 0x1F69 {
Some(seq!['\u{3A9}', '\u{314}'])
} else {
None
}
} else {
if v == 0x1F6A {
Some(seq!['\u{3A9}', '\u{313}', '\u{300}'])
} else {
None
}
}
}
}
}
} else {
if v < 0x1F73 {
if v < 0x1F6F {
if v < 0x1F6D {
if v < 0x1F6C {
if v == 0x1F6B {
Some(seq!['\u{3A9}', '\u{314}', '\u{300}'])
} else {
None
}
} else {
if v == 0x1F6C {
Some(seq!['\u{3A9}', '\u{313}', '\u{301}'])
} else {
None
}
}
} else {
if v < 0x1F6E {
if v == 0x1F6D {
Some(seq!['\u{3A9}', '\u{314}', '\u{301}'])
} else {
None
}
} else {
if v == 0x1F6E {
Some(seq!['\u{3A9}', '\u{313}', '\u{342}'])
} else {
None
}
}
}
} else {
if v < 0x1F71 {
if v < 0x1F70 {
if v == 0x1F6F {
Some(seq!['\u{3A9}', '\u{314}', '\u{342}'])
} else {
None
}
} else {
if v == 0x1F70 {
Some(seq!['\u{3B1}', '\u{300}'])
} else {
None
}
}
} else {
if v < 0x1F72 {
if v == 0x1F71 {
Some(seq!['\u{3B1}', '\u{301}'])
} else {
None
}
} else {
if v == 0x1F72 {
Some(seq!['\u{3B5}', '\u{300}'])
} else {
None
}
}
}
}
} else {
if v < 0x1F77 {
if v < 0x1F75 {
if v < 0x1F74 {
if v == 0x1F73 {
Some(seq!['\u{3B5}', '\u{301}'])
} else {
None
}
} else {
if v == 0x1F74 {
Some(seq!['\u{3B7}', '\u{300}'])
} else {
None
}
}
} else {
if v < 0x1F76 {
if v == 0x1F75 {
Some(seq!['\u{3B7}', '\u{301}'])
} else {
None
}
} else {
if v == 0x1F76 {
Some(seq!['\u{3B9}', '\u{300}'])
} else {
None
}
}
}
} else {
if v < 0x1F79 {
if v < 0x1F78 {
if v == 0x1F77 {
Some(seq!['\u{3B9}', '\u{301}'])
} else {
None
}
} else {
if v == 0x1F78 {
Some(seq!['\u{3BF}', '\u{300}'])
} else {
None
}
}
} else {
if v < 0x1F7A {
if v == 0x1F79 {
Some(seq!['\u{3BF}', '\u{301}'])
} else {
None
}
} else {
if v < 0x1F7B {
if v == 0x1F7A {
Some(seq!['\u{3C5}', '\u{300}'])
} else {
None
}
} else {
if v == 0x1F7B {
Some(seq!['\u{3C5}', '\u{301}'])
} else {
None
}
}
}
}
}
}
}
}
}
}
} else {
if v < 0x2209 {
if v < 0x1FC2 {
if v < 0x1F9E {
if v < 0x1F8E {
if v < 0x1F86 {
if v < 0x1F82 {
if v < 0x1F80 {
if v < 0x1F7D {
if v == 0x1F7C {
Some(seq!['\u{3C9}', '\u{300}'])
} else {
None
}
} else {
if v == 0x1F7D {
Some(seq!['\u{3C9}', '\u{301}'])
} else {
None
}
}
} else {
if v < 0x1F81 {
if v == 0x1F80 {
Some(seq!['\u{3B1}', '\u{313}', '\u{345}'])
} else {
None
}
} else {
if v == 0x1F81 {
Some(seq!['\u{3B1}', '\u{314}', '\u{345}'])
} else {
None
}
}
}
} else {
if v < 0x1F84 {
if v < 0x1F83 {
if v == 0x1F82 {
Some(seq!['\u{3B1}', '\u{313}', '\u{300}', '\u{345}'])
} else {
None
}
} else {
if v == 0x1F83 {
Some(seq!['\u{3B1}', '\u{314}', '\u{300}', '\u{345}'])
} else {
None
}
}
} else {
if v < 0x1F85 {
if v == 0x1F84 {
Some(seq!['\u{3B1}', '\u{313}', '\u{301}', '\u{345}'])
} else {
None
}
} else {
if v == 0x1F85 {
Some(seq!['\u{3B1}', '\u{314}', '\u{301}', '\u{345}'])
} else {
None
}
}
}
}
} else {
if v < 0x1F8A {
if v < 0x1F88 {
if v < 0x1F87 {
if v == 0x1F86 {
Some(seq!['\u{3B1}', '\u{313}', '\u{342}', '\u{345}'])
} else {
None
}
} else {
if v == 0x1F87 {
Some(seq!['\u{3B1}', '\u{314}', '\u{342}', '\u{345}'])
} else {
None
}
}
} else {
if v < 0x1F89 {
if v == 0x1F88 {
Some(seq!['\u{391}', '\u{313}', '\u{345}'])
} else {
None
}
} else {
if v == 0x1F89 {
Some(seq!['\u{391}', '\u{314}', '\u{345}'])
} else {
None
}
}
}
} else {
if v < 0x1F8C {
if v < 0x1F8B {
if v == 0x1F8A {
Some(seq!['\u{391}', '\u{313}', '\u{300}', '\u{345}'])
} else {
None
}
} else {
if v == 0x1F8B {
Some(seq!['\u{391}', '\u{314}', '\u{300}', '\u{345}'])
} else {
None
}
}
} else {
if v < 0x1F8D {
if v == 0x1F8C {
Some(seq!['\u{391}', '\u{313}', '\u{301}', '\u{345}'])
} else {
None
}
} else {
if v == 0x1F8D {
Some(seq!['\u{391}', '\u{314}', '\u{301}', '\u{345}'])
} else {
None
}
}
}
}
}
} else {
if v < 0x1F96 {
if v < 0x1F92 {
if v < 0x1F90 {
if v < 0x1F8F {
if v == 0x1F8E {
Some(seq!['\u{391}', '\u{313}', '\u{342}', '\u{345}'])
} else {
None
}
} else {
if v == 0x1F8F {
Some(seq!['\u{391}', '\u{314}', '\u{342}', '\u{345}'])
} else {
None
}
}
} else {
if v < 0x1F91 {
if v == 0x1F90 {
Some(seq!['\u{3B7}', '\u{313}', '\u{345}'])
} else {
None
}
} else {
if v == 0x1F91 {
Some(seq!['\u{3B7}', '\u{314}', '\u{345}'])
} else {
None
}
}
}
} else {
if v < 0x1F94 {
if v < 0x1F93 {
if v == 0x1F92 {
Some(seq!['\u{3B7}', '\u{313}', '\u{300}', '\u{345}'])
} else {
None
}
} else {
if v == 0x1F93 {
Some(seq!['\u{3B7}', '\u{314}', '\u{300}', '\u{345}'])
} else {
None
}
}
} else {
if v < 0x1F95 {
if v == 0x1F94 {
Some(seq!['\u{3B7}', '\u{313}', '\u{301}', '\u{345}'])
} else {
None
}
} else {
if v == 0x1F95 {
Some(seq!['\u{3B7}', '\u{314}', '\u{301}', '\u{345}'])
} else {
None
}
}
}
}
} else {
if v < 0x1F9A {
if v < 0x1F98 {
if v < 0x1F97 {
if v == 0x1F96 {
Some(seq!['\u{3B7}', '\u{313}', '\u{342}', '\u{345}'])
} else {
None
}
} else {
if v == 0x1F97 {
Some(seq!['\u{3B7}', '\u{314}', '\u{342}', '\u{345}'])
} else {
None
}
}
} else {
if v < 0x1F99 {
if v == 0x1F98 {
Some(seq!['\u{397}', '\u{313}', '\u{345}'])
} else {
None
}
} else {
if v == 0x1F99 {
Some(seq!['\u{397}', '\u{314}', '\u{345}'])
} else {
None
}
}
}
} else {
if v < 0x1F9C {
if v < 0x1F9B {
if v == 0x1F9A {
Some(seq!['\u{397}', '\u{313}', '\u{300}', '\u{345}'])
} else {
None
}
} else {
if v == 0x1F9B {
Some(seq!['\u{397}', '\u{314}', '\u{300}', '\u{345}'])
} else {
None
}
}
} else {
if v < 0x1F9D {
if v == 0x1F9C {
Some(seq!['\u{397}', '\u{313}', '\u{301}', '\u{345}'])
} else {
None
}
} else {
if v == 0x1F9D {
Some(seq!['\u{397}', '\u{314}', '\u{301}', '\u{345}'])
} else {
None
}
}
}
}
}
}
} else {
if v < 0x1FAE {
if v < 0x1FA6 {
if v < 0x1FA2 {
if v < 0x1FA0 {
if v < 0x1F9F {
if v == 0x1F9E {
Some(seq!['\u{397}', '\u{313}', '\u{342}', '\u{345}'])
} else {
None
}
} else {
if v == 0x1F9F {
Some(seq!['\u{397}', '\u{314}', '\u{342}', '\u{345}'])
} else {
None
}
}
} else {
if v < 0x1FA1 {
if v == 0x1FA0 {
Some(seq!['\u{3C9}', '\u{313}', '\u{345}'])
} else {
None
}
} else {
if v == 0x1FA1 {
Some(seq!['\u{3C9}', '\u{314}', '\u{345}'])
} else {
None
}
}
}
} else {
if v < 0x1FA4 {
if v < 0x1FA3 {
if v == 0x1FA2 {
Some(seq!['\u{3C9}', '\u{313}', '\u{300}', '\u{345}'])
} else {
None
}
} else {
if v == 0x1FA3 {
Some(seq!['\u{3C9}', '\u{314}', '\u{300}', '\u{345}'])
} else {
None
}
}
} else {
if v < 0x1FA5 {
if v == 0x1FA4 {
Some(seq!['\u{3C9}', '\u{313}', '\u{301}', '\u{345}'])
} else {
None
}
} else {
if v == 0x1FA5 {
Some(seq!['\u{3C9}', '\u{314}', '\u{301}', '\u{345}'])
} else {
None
}
}
}
}
} else {
if v < 0x1FAA {
if v < 0x1FA8 {
if v < 0x1FA7 {
if v == 0x1FA6 {
Some(seq!['\u{3C9}', '\u{313}', '\u{342}', '\u{345}'])
} else {
None
}
} else {
if v == 0x1FA7 {
Some(seq!['\u{3C9}', '\u{314}', '\u{342}', '\u{345}'])
} else {
None
}
}
} else {
if v < 0x1FA9 {
if v == 0x1FA8 {
Some(seq!['\u{3A9}', '\u{313}', '\u{345}'])
} else {
None
}
} else {
if v == 0x1FA9 {
Some(seq!['\u{3A9}', '\u{314}', '\u{345}'])
} else {
None
}
}
}
} else {
if v < 0x1FAC {
if v < 0x1FAB {
if v == 0x1FAA {
Some(seq!['\u{3A9}', '\u{313}', '\u{300}', '\u{345}'])
} else {
None
}
} else {
if v == 0x1FAB {
Some(seq!['\u{3A9}', '\u{314}', '\u{300}', '\u{345}'])
} else {
None
}
}
} else {
if v < 0x1FAD {
if v == 0x1FAC {
Some(seq!['\u{3A9}', '\u{313}', '\u{301}', '\u{345}'])
} else {
None
}
} else {
if v == 0x1FAD {
Some(seq!['\u{3A9}', '\u{314}', '\u{301}', '\u{345}'])
} else {
None
}
}
}
}
}
} else {
if v < 0x1FB7 {
if v < 0x1FB2 {
if v < 0x1FB0 {
if v < 0x1FAF {
if v == 0x1FAE {
Some(seq!['\u{3A9}', '\u{313}', '\u{342}', '\u{345}'])
} else {
None
}
} else {
if v == 0x1FAF {
Some(seq!['\u{3A9}', '\u{314}', '\u{342}', '\u{345}'])
} else {
None
}
}
} else {
if v < 0x1FB1 {
if v == 0x1FB0 {
Some(seq!['\u{3B1}', '\u{306}'])
} else {
None
}
} else {
if v == 0x1FB1 {
Some(seq!['\u{3B1}', '\u{304}'])
} else {
None
}
}
}
} else {
if v < 0x1FB4 {
if v < 0x1FB3 {
if v == 0x1FB2 {
Some(seq!['\u{3B1}', '\u{300}', '\u{345}'])
} else {
None
}
} else {
if v == 0x1FB3 {
Some(seq!['\u{3B1}', '\u{345}'])
} else {
None
}
}
} else {
if v < 0x1FB6 {
if v == 0x1FB4 {
Some(seq!['\u{3B1}', '\u{301}', '\u{345}'])
} else {
None
}
} else {
if v == 0x1FB6 {
Some(seq!['\u{3B1}', '\u{342}'])
} else {
None
}
}
}
}
} else {
if v < 0x1FBB {
if v < 0x1FB9 {
if v < 0x1FB8 {
if v == 0x1FB7 {
Some(seq!['\u{3B1}', '\u{342}', '\u{345}'])
} else {
None
}
} else {
if v == 0x1FB8 {
Some(seq!['\u{391}', '\u{306}'])
} else {
None
}
}
} else {
if v < 0x1FBA {
if v == 0x1FB9 {
Some(seq!['\u{391}', '\u{304}'])
} else {
None
}
} else {
if v == 0x1FBA {
Some(seq!['\u{391}', '\u{300}'])
} else {
None
}
}
}
} else {
if v < 0x1FBE {
if v < 0x1FBC {
if v == 0x1FBB {
Some(seq!['\u{391}', '\u{301}'])
} else {
None
}
} else {
if v == 0x1FBC {
Some(seq!['\u{391}', '\u{345}'])
} else {
None
}
}
} else {
if v < 0x1FC1 {
if v == 0x1FBE {
Some(seq!['\u{3B9}'])
} else {
None
}
} else {
if v == 0x1FC1 {
Some(seq!['\u{A8}', '\u{342}'])
} else {
None
}
}
}
}
}
}
}
} else {
if v < 0x1FE6 {
if v < 0x1FD3 {
if v < 0x1FCB {
if v < 0x1FC7 {
if v < 0x1FC4 {
if v < 0x1FC3 {
if v == 0x1FC2 {
Some(seq!['\u{3B7}', '\u{300}', '\u{345}'])
} else {
None
}
} else {
if v == 0x1FC3 {
Some(seq!['\u{3B7}', '\u{345}'])
} else {
None
}
}
} else {
if v < 0x1FC6 {
if v == 0x1FC4 {
Some(seq!['\u{3B7}', '\u{301}', '\u{345}'])
} else {
None
}
} else {
if v == 0x1FC6 {
Some(seq!['\u{3B7}', '\u{342}'])
} else {
None
}
}
}
} else {
if v < 0x1FC9 {
if v < 0x1FC8 {
if v == 0x1FC7 {
Some(seq!['\u{3B7}', '\u{342}', '\u{345}'])
} else {
None
}
} else {
if v == 0x1FC8 {
Some(seq!['\u{395}', '\u{300}'])
} else {
None
}
}
} else {
if v < 0x1FCA {
if v == 0x1FC9 {
Some(seq!['\u{395}', '\u{301}'])
} else {
None
}
} else {
if v == 0x1FCA {
Some(seq!['\u{397}', '\u{300}'])
} else {
None
}
}
}
}
} else {
if v < 0x1FCF {
if v < 0x1FCD {
if v < 0x1FCC {
if v == 0x1FCB {
Some(seq!['\u{397}', '\u{301}'])
} else {
None
}
} else {
if v == 0x1FCC {
Some(seq!['\u{397}', '\u{345}'])
} else {
None
}
}
} else {
if v < 0x1FCE {
if v == 0x1FCD {
Some(seq!['\u{1FBF}', '\u{300}'])
} else {
None
}
} else {
if v == 0x1FCE {
Some(seq!['\u{1FBF}', '\u{301}'])
} else {
None
}
}
}
} else {
if v < 0x1FD1 {
if v < 0x1FD0 {
if v == 0x1FCF {
Some(seq!['\u{1FBF}', '\u{342}'])
} else {
None
}
} else {
if v == 0x1FD0 {
Some(seq!['\u{3B9}', '\u{306}'])
} else {
None
}
}
} else {
if v < 0x1FD2 {
if v == 0x1FD1 {
Some(seq!['\u{3B9}', '\u{304}'])
} else {
None
}
} else {
if v == 0x1FD2 {
Some(seq!['\u{3B9}', '\u{308}', '\u{300}'])
} else {
None
}
}
}
}
}
} else {
if v < 0x1FDE {
if v < 0x1FD9 {
if v < 0x1FD7 {
if v < 0x1FD6 {
if v == 0x1FD3 {
Some(seq!['\u{3B9}', '\u{308}', '\u{301}'])
} else {
None
}
} else {
if v == 0x1FD6 {
Some(seq!['\u{3B9}', '\u{342}'])
} else {
None
}
}
} else {
if v < 0x1FD8 {
if v == 0x1FD7 {
Some(seq!['\u{3B9}', '\u{308}', '\u{342}'])
} else {
None
}
} else {
if v == 0x1FD8 {
Some(seq!['\u{399}', '\u{306}'])
} else {
None
}
}
}
} else {
if v < 0x1FDB {
if v < 0x1FDA {
if v == 0x1FD9 {
Some(seq!['\u{399}', '\u{304}'])
} else {
None
}
} else {
if v == 0x1FDA {
Some(seq!['\u{399}', '\u{300}'])
} else {
None
}
}
} else {
if v < 0x1FDD {
if v == 0x1FDB {
Some(seq!['\u{399}', '\u{301}'])
} else {
None
}
} else {
if v == 0x1FDD {
Some(seq!['\u{1FFE}', '\u{300}'])
} else {
None
}
}
}
}
} else {
if v < 0x1FE2 {
if v < 0x1FE0 {
if v < 0x1FDF {
if v == 0x1FDE {
Some(seq!['\u{1FFE}', '\u{301}'])
} else {
None
}
} else {
if v == 0x1FDF {
Some(seq!['\u{1FFE}', '\u{342}'])
} else {
None
}
}
} else {
if v < 0x1FE1 {
if v == 0x1FE0 {
Some(seq!['\u{3C5}', '\u{306}'])
} else {
None
}
} else {
if v == 0x1FE1 {
Some(seq!['\u{3C5}', '\u{304}'])
} else {
None
}
}
}
} else {
if v < 0x1FE4 {
if v < 0x1FE3 {
if v == 0x1FE2 {
Some(seq!['\u{3C5}', '\u{308}', '\u{300}'])
} else {
None
}
} else {
if v == 0x1FE3 {
Some(seq!['\u{3C5}', '\u{308}', '\u{301}'])
} else {
None
}
}
} else {
if v < 0x1FE5 {
if v == 0x1FE4 {
Some(seq!['\u{3C1}', '\u{313}'])
} else {
None
}
} else {
if v == 0x1FE5 {
Some(seq!['\u{3C1}', '\u{314}'])
} else {
None
}
}
}
}
}
}
} else {
if v < 0x1FF9 {
if v < 0x1FEE {
if v < 0x1FEA {
if v < 0x1FE8 {
if v < 0x1FE7 {
if v == 0x1FE6 {
Some(seq!['\u{3C5}', '\u{342}'])
} else {
None
}
} else {
if v == 0x1FE7 {
Some(seq!['\u{3C5}', '\u{308}', '\u{342}'])
} else {
None
}
}
} else {
if v < 0x1FE9 {
if v == 0x1FE8 {
Some(seq!['\u{3A5}', '\u{306}'])
} else {
None
}
} else {
if v == 0x1FE9 {
Some(seq!['\u{3A5}', '\u{304}'])
} else {
None
}
}
}
} else {
if v < 0x1FEC {
if v < 0x1FEB {
if v == 0x1FEA {
Some(seq!['\u{3A5}', '\u{300}'])
} else {
None
}
} else {
if v == 0x1FEB {
Some(seq!['\u{3A5}', '\u{301}'])
} else {
None
}
}
} else {
if v < 0x1FED {
if v == 0x1FEC {
Some(seq!['\u{3A1}', '\u{314}'])
} else {
None
}
} else {
if v == 0x1FED {
Some(seq!['\u{A8}', '\u{300}'])
} else {
None
}
}
}
}
} else {
if v < 0x1FF4 {
if v < 0x1FF2 {
if v < 0x1FEF {
if v == 0x1FEE {
Some(seq!['\u{A8}', '\u{301}'])
} else {
None
}
} else {
if v == 0x1FEF {
Some(seq!['\u{60}'])
} else {
None
}
}
} else {
if v < 0x1FF3 {
if v == 0x1FF2 {
Some(seq!['\u{3C9}', '\u{300}', '\u{345}'])
} else {
None
}
} else {
if v == 0x1FF3 {
Some(seq!['\u{3C9}', '\u{345}'])
} else {
None
}
}
}
} else {
if v < 0x1FF7 {
if v < 0x1FF6 {
if v == 0x1FF4 {
Some(seq!['\u{3C9}', '\u{301}', '\u{345}'])
} else {
None
}
} else {
if v == 0x1FF6 {
Some(seq!['\u{3C9}', '\u{342}'])
} else {
None
}
}
} else {
if v < 0x1FF8 {
if v == 0x1FF7 {
Some(seq!['\u{3C9}', '\u{342}', '\u{345}'])
} else {
None
}
} else {
if v == 0x1FF8 {
Some(seq!['\u{39F}', '\u{300}'])
} else {
None
}
}
}
}
}
} else {
if v < 0x212A {
if v < 0x1FFD {
if v < 0x1FFB {
if v < 0x1FFA {
if v == 0x1FF9 {
Some(seq!['\u{39F}', '\u{301}'])
} else {
None
}
} else {
if v == 0x1FFA {
Some(seq!['\u{3A9}', '\u{300}'])
} else {
None
}
}
} else {
if v < 0x1FFC {
if v == 0x1FFB {
Some(seq!['\u{3A9}', '\u{301}'])
} else {
None
}
} else {
if v == 0x1FFC {
Some(seq!['\u{3A9}', '\u{345}'])
} else {
None
}
}
}
} else {
if v < 0x2001 {
if v < 0x2000 {
if v == 0x1FFD {
Some(seq!['\u{B4}'])
} else {
None
}
} else {
if v == 0x2000 {
Some(seq!['\u{2002}'])
} else {
None
}
}
} else {
if v < 0x2126 {
if v == 0x2001 {
Some(seq!['\u{2003}'])
} else {
None
}
} else {
if v == 0x2126 {
Some(seq!['\u{3A9}'])
} else {
None
}
}
}
}
} else {
if v < 0x21AE {
if v < 0x219A {
if v < 0x212B {
if v == 0x212A {
Some(seq!['\u{4B}'])
} else {
None
}
} else {
if v == 0x212B {
Some(seq!['\u{41}', '\u{30A}'])
} else {
None
}
}
} else {
if v < 0x219B {
if v == 0x219A {
Some(seq!['\u{2190}', '\u{338}'])
} else {
None
}
} else {
if v == 0x219B {
Some(seq!['\u{2192}', '\u{338}'])
} else {
None
}
}
}
} else {
if v < 0x21CE {
if v < 0x21CD {
if v == 0x21AE {
Some(seq!['\u{2194}', '\u{338}'])
} else {
None
}
} else {
if v == 0x21CD {
Some(seq!['\u{21D0}', '\u{338}'])
} else {
None
}
}
} else {
if v < 0x21CF {
if v == 0x21CE {
Some(seq!['\u{21D4}', '\u{338}'])
} else {
None
}
} else {
if v < 0x2204 {
if v == 0x21CF {
Some(seq!['\u{21D2}', '\u{338}'])
} else {
None
}
} else {
if v == 0x2204 {
Some(seq!['\u{2203}', '\u{338}'])
} else {
None
}
}
}
}
}
}
}
}
}
} else {
if v < 0x307D {
if v < 0x22E3 {
if v < 0x2275 {
if v < 0x2260 {
if v < 0x2241 {
if v < 0x2224 {
if v < 0x220C {
if v == 0x2209 {
Some(seq!['\u{2208}', '\u{338}'])
} else {
None
}
} else {
if v == 0x220C {
Some(seq!['\u{220B}', '\u{338}'])
} else {
None
}
}
} else {
if v < 0x2226 {
if v == 0x2224 {
Some(seq!['\u{2223}', '\u{338}'])
} else {
None
}
} else {
if v == 0x2226 {
Some(seq!['\u{2225}', '\u{338}'])
} else {
None
}
}
}
} else {
if v < 0x2247 {
if v < 0x2244 {
if v == 0x2241 {
Some(seq!['\u{223C}', '\u{338}'])
} else {
None
}
} else {
if v == 0x2244 {
Some(seq!['\u{2243}', '\u{338}'])
} else {
None
}
}
} else {
if v < 0x2249 {
if v == 0x2247 {
Some(seq!['\u{2245}', '\u{338}'])
} else {
None
}
} else {
if v == 0x2249 {
Some(seq!['\u{2248}', '\u{338}'])
} else {
None
}
}
}
}
} else {
if v < 0x226F {
if v < 0x226D {
if v < 0x2262 {
if v == 0x2260 {
Some(seq!['\u{3D}', '\u{338}'])
} else {
None
}
} else {
if v == 0x2262 {
Some(seq!['\u{2261}', '\u{338}'])
} else {
None
}
}
} else {
if v < 0x226E {
if v == 0x226D {
Some(seq!['\u{224D}', '\u{338}'])
} else {
None
}
} else {
if v == 0x226E {
Some(seq!['\u{3C}', '\u{338}'])
} else {
None
}
}
}
} else {
if v < 0x2271 {
if v < 0x2270 {
if v == 0x226F {
Some(seq!['\u{3E}', '\u{338}'])
} else {
None
}
} else {
if v == 0x2270 {
Some(seq!['\u{2264}', '\u{338}'])
} else {
None
}
}
} else {
if v < 0x2274 {
if v == 0x2271 {
Some(seq!['\u{2265}', '\u{338}'])
} else {
None
}
} else {
if v == 0x2274 {
Some(seq!['\u{2272}', '\u{338}'])
} else {
None
}
}
}
}
}
} else {
if v < 0x2289 {
if v < 0x2281 {
if v < 0x2279 {
if v < 0x2278 {
if v == 0x2275 {
Some(seq!['\u{2273}', '\u{338}'])
} else {
None
}
} else {
if v == 0x2278 {
Some(seq!['\u{2276}', '\u{338}'])
} else {
None
}
}
} else {
if v < 0x2280 {
if v == 0x2279 {
Some(seq!['\u{2277}', '\u{338}'])
} else {
None
}
} else {
if v == 0x2280 {
Some(seq!['\u{227A}', '\u{338}'])
} else {
None
}
}
}
} else {
if v < 0x2285 {
if v < 0x2284 {
if v == 0x2281 {
Some(seq!['\u{227B}', '\u{338}'])
} else {
None
}
} else {
if v == 0x2284 {
Some(seq!['\u{2282}', '\u{338}'])
} else {
None
}
}
} else {
if v < 0x2288 {
if v == 0x2285 {
Some(seq!['\u{2283}', '\u{338}'])
} else {
None
}
} else {
if v == 0x2288 {
Some(seq!['\u{2286}', '\u{338}'])
} else {
None
}
}
}
}
} else {
if v < 0x22AF {
if v < 0x22AD {
if v < 0x22AC {
if v == 0x2289 {
Some(seq!['\u{2287}', '\u{338}'])
} else {
None
}
} else {
if v == 0x22AC {
Some(seq!['\u{22A2}', '\u{338}'])
} else {
None
}
}
} else {
if v < 0x22AE {
if v == 0x22AD {
Some(seq!['\u{22A8}', '\u{338}'])
} else {
None
}
} else {
if v == 0x22AE {
Some(seq!['\u{22A9}', '\u{338}'])
} else {
None
}
}
}
} else {
if v < 0x22E1 {
if v < 0x22E0 {
if v == 0x22AF {
Some(seq!['\u{22AB}', '\u{338}'])
} else {
None
}
} else {
if v == 0x22E0 {
Some(seq!['\u{227C}', '\u{338}'])
} else {
None
}
}
} else {
if v < 0x22E2 {
if v == 0x22E1 {
Some(seq!['\u{227D}', '\u{338}'])
} else {
None
}
} else {
if v == 0x22E2 {
Some(seq!['\u{2291}', '\u{338}'])
} else {
None
}
}
}
}
}
}
} else {
if v < 0x305C {
if v < 0x304C {
if v < 0x22ED {
if v < 0x22EB {
if v < 0x22EA {
if v == 0x22E3 {
Some(seq!['\u{2292}', '\u{338}'])
} else {
None
}
} else {
if v == 0x22EA {
Some(seq!['\u{22B2}', '\u{338}'])
} else {
None
}
}
} else {
if v < 0x22EC {
if v == 0x22EB {
Some(seq!['\u{22B3}', '\u{338}'])
} else {
None
}
} else {
if v == 0x22EC {
Some(seq!['\u{22B4}', '\u{338}'])
} else {
None
}
}
}
} else {
if v < 0x232A {
if v < 0x2329 {
if v == 0x22ED {
Some(seq!['\u{22B5}', '\u{338}'])
} else {
None
}
} else {
if v == 0x2329 {
Some(seq!['\u{3008}'])
} else {
None
}
}
} else {
if v < 0x2ADC {
if v == 0x232A {
Some(seq!['\u{3009}'])
} else {
None
}
} else {
if v == 0x2ADC {
Some(seq!['\u{2ADD}', '\u{338}'])
} else {
None
}
}
}
}
} else {
if v < 0x3054 {
if v < 0x3050 {
if v < 0x304E {
if v == 0x304C {
Some(seq!['\u{304B}', '\u{3099}'])
} else {
None
}
} else {
if v == 0x304E {
Some(seq!['\u{304D}', '\u{3099}'])
} else {
None
}
}
} else {
if v < 0x3052 {
if v == 0x3050 {
Some(seq!['\u{304F}', '\u{3099}'])
} else {
None
}
} else {
if v == 0x3052 {
Some(seq!['\u{3051}', '\u{3099}'])
} else {
None
}
}
}
} else {
if v < 0x3058 {
if v < 0x3056 {
if v == 0x3054 {
Some(seq!['\u{3053}', '\u{3099}'])
} else {
None
}
} else {
if v == 0x3056 {
Some(seq!['\u{3055}', '\u{3099}'])
} else {
None
}
}
} else {
if v < 0x305A {
if v == 0x3058 {
Some(seq!['\u{3057}', '\u{3099}'])
} else {
None
}
} else {
if v == 0x305A {
Some(seq!['\u{3059}', '\u{3099}'])
} else {
None
}
}
}
}
}
} else {
if v < 0x3071 {
if v < 0x3065 {
if v < 0x3060 {
if v < 0x305E {
if v == 0x305C {
Some(seq!['\u{305B}', '\u{3099}'])
} else {
None
}
} else {
if v == 0x305E {
Some(seq!['\u{305D}', '\u{3099}'])
} else {
None
}
}
} else {
if v < 0x3062 {
if v == 0x3060 {
Some(seq!['\u{305F}', '\u{3099}'])
} else {
None
}
} else {
if v == 0x3062 {
Some(seq!['\u{3061}', '\u{3099}'])
} else {
None
}
}
}
} else {
if v < 0x3069 {
if v < 0x3067 {
if v == 0x3065 {
Some(seq!['\u{3064}', '\u{3099}'])
} else {
None
}
} else {
if v == 0x3067 {
Some(seq!['\u{3066}', '\u{3099}'])
} else {
None
}
}
} else {
if v < 0x3070 {
if v == 0x3069 {
Some(seq!['\u{3068}', '\u{3099}'])
} else {
None
}
} else {
if v == 0x3070 {
Some(seq!['\u{306F}', '\u{3099}'])
} else {
None
}
}
}
}
} else {
if v < 0x3077 {
if v < 0x3074 {
if v < 0x3073 {
if v == 0x3071 {
Some(seq!['\u{306F}', '\u{309A}'])
} else {
None
}
} else {
if v == 0x3073 {
Some(seq!['\u{3072}', '\u{3099}'])
} else {
None
}
}
} else {
if v < 0x3076 {
if v == 0x3074 {
Some(seq!['\u{3072}', '\u{309A}'])
} else {
None
}
} else {
if v == 0x3076 {
Some(seq!['\u{3075}', '\u{3099}'])
} else {
None
}
}
}
} else {
if v < 0x307A {
if v < 0x3079 {
if v == 0x3077 {
Some(seq!['\u{3075}', '\u{309A}'])
} else {
None
}
} else {
if v == 0x3079 {
Some(seq!['\u{3078}', '\u{3099}'])
} else {
None
}
}
} else {
if v < 0x307C {
if v == 0x307A {
Some(seq!['\u{3078}', '\u{309A}'])
} else {
None
}
} else {
if v == 0x307C {
Some(seq!['\u{307B}', '\u{3099}'])
} else {
None
}
}
}
}
}
}
}
} else {
if v < 0x30FA {
if v < 0x30C7 {
if v < 0x30B6 {
if v < 0x30AE {
if v < 0x309E {
if v < 0x3094 {
if v == 0x307D {
Some(seq!['\u{307B}', '\u{309A}'])
} else {
None
}
} else {
if v == 0x3094 {
Some(seq!['\u{3046}', '\u{3099}'])
} else {
None
}
}
} else {
if v < 0x30AC {
if v == 0x309E {
Some(seq!['\u{309D}', '\u{3099}'])
} else {
None
}
} else {
if v == 0x30AC {
Some(seq!['\u{30AB}', '\u{3099}'])
} else {
None
}
}
}
} else {
if v < 0x30B2 {
if v < 0x30B0 {
if v == 0x30AE {
Some(seq!['\u{30AD}', '\u{3099}'])
} else {
None
}
} else {
if v == 0x30B0 {
Some(seq!['\u{30AF}', '\u{3099}'])
} else {
None
}
}
} else {
if v < 0x30B4 {
if v == 0x30B2 {
Some(seq!['\u{30B1}', '\u{3099}'])
} else {
None
}
} else {
if v == 0x30B4 {
Some(seq!['\u{30B3}', '\u{3099}'])
} else {
None
}
}
}
}
} else {
if v < 0x30BE {
if v < 0x30BA {
if v < 0x30B8 {
if v == 0x30B6 {
Some(seq!['\u{30B5}', '\u{3099}'])
} else {
None
}
} else {
if v == 0x30B8 {
Some(seq!['\u{30B7}', '\u{3099}'])
} else {
None
}
}
} else {
if v < 0x30BC {
if v == 0x30BA {
Some(seq!['\u{30B9}', '\u{3099}'])
} else {
None
}
} else {
if v == 0x30BC {
Some(seq!['\u{30BB}', '\u{3099}'])
} else {
None
}
}
}
} else {
if v < 0x30C2 {
if v < 0x30C0 {
if v == 0x30BE {
Some(seq!['\u{30BD}', '\u{3099}'])
} else {
None
}
} else {
if v == 0x30C0 {
Some(seq!['\u{30BF}', '\u{3099}'])
} else {
None
}
}
} else {
if v < 0x30C5 {
if v == 0x30C2 {
Some(seq!['\u{30C1}', '\u{3099}'])
} else {
None
}
} else {
if v == 0x30C5 {
Some(seq!['\u{30C4}', '\u{3099}'])
} else {
None
}
}
}
}
}
} else {
if v < 0x30D9 {
if v < 0x30D3 {
if v < 0x30D0 {
if v < 0x30C9 {
if v == 0x30C7 {
Some(seq!['\u{30C6}', '\u{3099}'])
} else {
None
}
} else {
if v == 0x30C9 {
Some(seq!['\u{30C8}', '\u{3099}'])
} else {
None
}
}
} else {
if v < 0x30D1 {
if v == 0x30D0 {
Some(seq!['\u{30CF}', '\u{3099}'])
} else {
None
}
} else {
if v == 0x30D1 {
Some(seq!['\u{30CF}', '\u{309A}'])
} else {
None
}
}
}
} else {
if v < 0x30D6 {
if v < 0x30D4 {
if v == 0x30D3 {
Some(seq!['\u{30D2}', '\u{3099}'])
} else {
None
}
} else {
if v == 0x30D4 {
Some(seq!['\u{30D2}', '\u{309A}'])
} else {
None
}
}
} else {
if v < 0x30D7 {
if v == 0x30D6 {
Some(seq!['\u{30D5}', '\u{3099}'])
} else {
None
}
} else {
if v == 0x30D7 {
Some(seq!['\u{30D5}', '\u{309A}'])
} else {
None
}
}
}
}
} else {
if v < 0x30F4 {
if v < 0x30DC {
if v < 0x30DA {
if v == 0x30D9 {
Some(seq!['\u{30D8}', '\u{3099}'])
} else {
None
}
} else {
if v == 0x30DA {
Some(seq!['\u{30D8}', '\u{309A}'])
} else {
None
}
}
} else {
if v < 0x30DD {
if v == 0x30DC {
Some(seq!['\u{30DB}', '\u{3099}'])
} else {
None
}
} else {
if v == 0x30DD {
Some(seq!['\u{30DB}', '\u{309A}'])
} else {
None
}
}
}
} else {
if v < 0x30F8 {
if v < 0x30F7 {
if v == 0x30F4 {
Some(seq!['\u{30A6}', '\u{3099}'])
} else {
None
}
} else {
if v == 0x30F7 {
Some(seq!['\u{30EF}', '\u{3099}'])
} else {
None
}
}
} else {
if v < 0x30F9 {
if v == 0x30F8 {
Some(seq!['\u{30F0}', '\u{3099}'])
} else {
None
}
} else {
if v == 0x30F9 {
Some(seq!['\u{30F1}', '\u{3099}'])
} else {
None
}
}
}
}
}
}
} else {
if v < 0xF90E {
if v < 0xF906 {
if v < 0xF902 {
if v < 0xF900 {
if v < 0x30FE {
if v == 0x30FA {
Some(seq!['\u{30F2}', '\u{3099}'])
} else {
None
}
} else {
if v == 0x30FE {
Some(seq!['\u{30FD}', '\u{3099}'])
} else {
None
}
}
} else {
if v < 0xF901 {
if v == 0xF900 {
Some(seq!['\u{8C48}'])
} else {
None
}
} else {
if v == 0xF901 {
Some(seq!['\u{66F4}'])
} else {
None
}
}
}
} else {
if v < 0xF904 {
if v < 0xF903 {
if v == 0xF902 {
Some(seq!['\u{8ECA}'])
} else {
None
}
} else {
if v == 0xF903 {
Some(seq!['\u{8CC8}'])
} else {
None
}
}
} else {
if v < 0xF905 {
if v == 0xF904 {
Some(seq!['\u{6ED1}'])
} else {
None
}
} else {
if v == 0xF905 {
Some(seq!['\u{4E32}'])
} else {
None
}
}
}
}
} else {
if v < 0xF90A {
if v < 0xF908 {
if v < 0xF907 {
if v == 0xF906 {
Some(seq!['\u{53E5}'])
} else {
None
}
} else {
if v == 0xF907 {
Some(seq!['\u{9F9C}'])
} else {
None
}
}
} else {
if v < 0xF909 {
if v == 0xF908 {
Some(seq!['\u{9F9C}'])
} else {
None
}
} else {
if v == 0xF909 {
Some(seq!['\u{5951}'])
} else {
None
}
}
}
} else {
if v < 0xF90C {
if v < 0xF90B {
if v == 0xF90A {
Some(seq!['\u{91D1}'])
} else {
None
}
} else {
if v == 0xF90B {
Some(seq!['\u{5587}'])
} else {
None
}
}
} else {
if v < 0xF90D {
if v == 0xF90C {
Some(seq!['\u{5948}'])
} else {
None
}
} else {
if v == 0xF90D {
Some(seq!['\u{61F6}'])
} else {
None
}
}
}
}
}
} else {
if v < 0xF916 {
if v < 0xF912 {
if v < 0xF910 {
if v < 0xF90F {
if v == 0xF90E {
Some(seq!['\u{7669}'])
} else {
None
}
} else {
if v == 0xF90F {
Some(seq!['\u{7F85}'])
} else {
None
}
}
} else {
if v < 0xF911 {
if v == 0xF910 {
Some(seq!['\u{863F}'])
} else {
None
}
} else {
if v == 0xF911 {
Some(seq!['\u{87BA}'])
} else {
None
}
}
}
} else {
if v < 0xF914 {
if v < 0xF913 {
if v == 0xF912 {
Some(seq!['\u{88F8}'])
} else {
None
}
} else {
if v == 0xF913 {
Some(seq!['\u{908F}'])
} else {
None
}
}
} else {
if v < 0xF915 {
if v == 0xF914 {
Some(seq!['\u{6A02}'])
} else {
None
}
} else {
if v == 0xF915 {
Some(seq!['\u{6D1B}'])
} else {
None
}
}
}
}
} else {
if v < 0xF91A {
if v < 0xF918 {
if v < 0xF917 {
if v == 0xF916 {
Some(seq!['\u{70D9}'])
} else {
None
}
} else {
if v == 0xF917 {
Some(seq!['\u{73DE}'])
} else {
None
}
}
} else {
if v < 0xF919 {
if v == 0xF918 {
Some(seq!['\u{843D}'])
} else {
None
}
} else {
if v == 0xF919 {
Some(seq!['\u{916A}'])
} else {
None
}
}
}
} else {
if v < 0xF91C {
if v < 0xF91B {
if v == 0xF91A {
Some(seq!['\u{99F1}'])
} else {
None
}
} else {
if v == 0xF91B {
Some(seq!['\u{4E82}'])
} else {
None
}
}
} else {
if v < 0xF91D {
if v == 0xF91C {
Some(seq!['\u{5375}'])
} else {
None
}
} else {
if v < 0xF91E {
if v == 0xF91D {
Some(seq!['\u{6B04}'])
} else {
None
}
} else {
if v == 0xF91E {
Some(seq!['\u{721B}'])
} else {
None
}
}
}
}
}
}
}
}
}
}
}
}
} else {
if v < 0x2F81A {
if v < 0xFA2C {
if v < 0xF99F {
if v < 0xF95F {
if v < 0xF93F {
if v < 0xF92F {
if v < 0xF927 {
if v < 0xF923 {
if v < 0xF921 {
if v < 0xF920 {
if v == 0xF91F {
Some(seq!['\u{862D}'])
} else {
None
}
} else {
if v == 0xF920 {
Some(seq!['\u{9E1E}'])
} else {
None
}
}
} else {
if v < 0xF922 {
if v == 0xF921 {
Some(seq!['\u{5D50}'])
} else {
None
}
} else {
if v == 0xF922 {
Some(seq!['\u{6FEB}'])
} else {
None
}
}
}
} else {
if v < 0xF925 {
if v < 0xF924 {
if v == 0xF923 {
Some(seq!['\u{85CD}'])
} else {
None
}
} else {
if v == 0xF924 {
Some(seq!['\u{8964}'])
} else {
None
}
}
} else {
if v < 0xF926 {
if v == 0xF925 {
Some(seq!['\u{62C9}'])
} else {
None
}
} else {
if v == 0xF926 {
Some(seq!['\u{81D8}'])
} else {
None
}
}
}
}
} else {
if v < 0xF92B {
if v < 0xF929 {
if v < 0xF928 {
if v == 0xF927 {
Some(seq!['\u{881F}'])
} else {
None
}
} else {
if v == 0xF928 {
Some(seq!['\u{5ECA}'])
} else {
None
}
}
} else {
if v < 0xF92A {
if v == 0xF929 {
Some(seq!['\u{6717}'])
} else {
None
}
} else {
if v == 0xF92A {
Some(seq!['\u{6D6A}'])
} else {
None
}
}
}
} else {
if v < 0xF92D {
if v < 0xF92C {
if v == 0xF92B {
Some(seq!['\u{72FC}'])
} else {
None
}
} else {
if v == 0xF92C {
Some(seq!['\u{90CE}'])
} else {
None
}
}
} else {
if v < 0xF92E {
if v == 0xF92D {
Some(seq!['\u{4F86}'])
} else {
None
}
} else {
if v == 0xF92E {
Some(seq!['\u{51B7}'])
} else {
None
}
}
}
}
}
} else {
if v < 0xF937 {
if v < 0xF933 {
if v < 0xF931 {
if v < 0xF930 {
if v == 0xF92F {
Some(seq!['\u{52DE}'])
} else {
None
}
} else {
if v == 0xF930 {
Some(seq!['\u{64C4}'])
} else {
None
}
}
} else {
if v < 0xF932 {
if v == 0xF931 {
Some(seq!['\u{6AD3}'])
} else {
None
}
} else {
if v == 0xF932 {
Some(seq!['\u{7210}'])
} else {
None
}
}
}
} else {
if v < 0xF935 {
if v < 0xF934 {
if v == 0xF933 {
Some(seq!['\u{76E7}'])
} else {
None
}
} else {
if v == 0xF934 {
Some(seq!['\u{8001}'])
} else {
None
}
}
} else {
if v < 0xF936 {
if v == 0xF935 {
Some(seq!['\u{8606}'])
} else {
None
}
} else {
if v == 0xF936 {
Some(seq!['\u{865C}'])
} else {
None
}
}
}
}
} else {
if v < 0xF93B {
if v < 0xF939 {
if v < 0xF938 {
if v == 0xF937 {
Some(seq!['\u{8DEF}'])
} else {
None
}
} else {
if v == 0xF938 {
Some(seq!['\u{9732}'])
} else {
None
}
}
} else {
if v < 0xF93A {
if v == 0xF939 {
Some(seq!['\u{9B6F}'])
} else {
None
}
} else {
if v == 0xF93A {
Some(seq!['\u{9DFA}'])
} else {
None
}
}
}
} else {
if v < 0xF93D {
if v < 0xF93C {
if v == 0xF93B {
Some(seq!['\u{788C}'])
} else {
None
}
} else {
if v == 0xF93C {
Some(seq!['\u{797F}'])
} else {
None
}
}
} else {
if v < 0xF93E {
if v == 0xF93D {
Some(seq!['\u{7DA0}'])
} else {
None
}
} else {
if v == 0xF93E {
Some(seq!['\u{83C9}'])
} else {
None
}
}
}
}
}
}
} else {
if v < 0xF94F {
if v < 0xF947 {
if v < 0xF943 {
if v < 0xF941 {
if v < 0xF940 {
if v == 0xF93F {
Some(seq!['\u{9304}'])
} else {
None
}
} else {
if v == 0xF940 {
Some(seq!['\u{9E7F}'])
} else {
None
}
}
} else {
if v < 0xF942 {
if v == 0xF941 {
Some(seq!['\u{8AD6}'])
} else {
None
}
} else {
if v == 0xF942 {
Some(seq!['\u{58DF}'])
} else {
None
}
}
}
} else {
if v < 0xF945 {
if v < 0xF944 {
if v == 0xF943 {
Some(seq!['\u{5F04}'])
} else {
None
}
} else {
if v == 0xF944 {
Some(seq!['\u{7C60}'])
} else {
None
}
}
} else {
if v < 0xF946 {
if v == 0xF945 {
Some(seq!['\u{807E}'])
} else {
None
}
} else {
if v == 0xF946 {
Some(seq!['\u{7262}'])
} else {
None
}
}
}
}
} else {
if v < 0xF94B {
if v < 0xF949 {
if v < 0xF948 {
if v == 0xF947 {
Some(seq!['\u{78CA}'])
} else {
None
}
} else {
if v == 0xF948 {
Some(seq!['\u{8CC2}'])
} else {
None
}
}
} else {
if v < 0xF94A {
if v == 0xF949 {
Some(seq!['\u{96F7}'])
} else {
None
}
} else {
if v == 0xF94A {
Some(seq!['\u{58D8}'])
} else {
None
}
}
}
} else {
if v < 0xF94D {
if v < 0xF94C {
if v == 0xF94B {
Some(seq!['\u{5C62}'])
} else {
None
}
} else {
if v == 0xF94C {
Some(seq!['\u{6A13}'])
} else {
None
}
}
} else {
if v < 0xF94E {
if v == 0xF94D {
Some(seq!['\u{6DDA}'])
} else {
None
}
} else {
if v == 0xF94E {
Some(seq!['\u{6F0F}'])
} else {
None
}
}
}
}
}
} else {
if v < 0xF957 {
if v < 0xF953 {
if v < 0xF951 {
if v < 0xF950 {
if v == 0xF94F {
Some(seq!['\u{7D2F}'])
} else {
None
}
} else {
if v == 0xF950 {
Some(seq!['\u{7E37}'])
} else {
None
}
}
} else {
if v < 0xF952 {
if v == 0xF951 {
Some(seq!['\u{964B}'])
} else {
None
}
} else {
if v == 0xF952 {
Some(seq!['\u{52D2}'])
} else {
None
}
}
}
} else {
if v < 0xF955 {
if v < 0xF954 {
if v == 0xF953 {
Some(seq!['\u{808B}'])
} else {
None
}
} else {
if v == 0xF954 {
Some(seq!['\u{51DC}'])
} else {
None
}
}
} else {
if v < 0xF956 {
if v == 0xF955 {
Some(seq!['\u{51CC}'])
} else {
None
}
} else {
if v == 0xF956 {
Some(seq!['\u{7A1C}'])
} else {
None
}
}
}
}
} else {
if v < 0xF95B {
if v < 0xF959 {
if v < 0xF958 {
if v == 0xF957 {
Some(seq!['\u{7DBE}'])
} else {
None
}
} else {
if v == 0xF958 {
Some(seq!['\u{83F1}'])
} else {
None
}
}
} else {
if v < 0xF95A {
if v == 0xF959 {
Some(seq!['\u{9675}'])
} else {
None
}
} else {
if v == 0xF95A {
Some(seq!['\u{8B80}'])
} else {
None
}
}
}
} else {
if v < 0xF95D {
if v < 0xF95C {
if v == 0xF95B {
Some(seq!['\u{62CF}'])
} else {
None
}
} else {
if v == 0xF95C {
Some(seq!['\u{6A02}'])
} else {
None
}
}
} else {
if v < 0xF95E {
if v == 0xF95D {
Some(seq!['\u{8AFE}'])
} else {
None
}
} else {
if v == 0xF95E {
Some(seq!['\u{4E39}'])
} else {
None
}
}
}
}
}
}
}
} else {
if v < 0xF97F {
if v < 0xF96F {
if v < 0xF967 {
if v < 0xF963 {
if v < 0xF961 {
if v < 0xF960 {
if v == 0xF95F {
Some(seq!['\u{5BE7}'])
} else {
None
}
} else {
if v == 0xF960 {
Some(seq!['\u{6012}'])
} else {
None
}
}
} else {
if v < 0xF962 {
if v == 0xF961 {
Some(seq!['\u{7387}'])
} else {
None
}
} else {
if v == 0xF962 {
Some(seq!['\u{7570}'])
} else {
None
}
}
}
} else {
if v < 0xF965 {
if v < 0xF964 {
if v == 0xF963 {
Some(seq!['\u{5317}'])
} else {
None
}
} else {
if v == 0xF964 {
Some(seq!['\u{78FB}'])
} else {
None
}
}
} else {
if v < 0xF966 {
if v == 0xF965 {
Some(seq!['\u{4FBF}'])
} else {
None
}
} else {
if v == 0xF966 {
Some(seq!['\u{5FA9}'])
} else {
None
}
}
}
}
} else {
if v < 0xF96B {
if v < 0xF969 {
if v < 0xF968 {
if v == 0xF967 {
Some(seq!['\u{4E0D}'])
} else {
None
}
} else {
if v == 0xF968 {
Some(seq!['\u{6CCC}'])
} else {
None
}
}
} else {
if v < 0xF96A {
if v == 0xF969 {
Some(seq!['\u{6578}'])
} else {
None
}
} else {
if v == 0xF96A {
Some(seq!['\u{7D22}'])
} else {
None
}
}
}
} else {
if v < 0xF96D {
if v < 0xF96C {
if v == 0xF96B {
Some(seq!['\u{53C3}'])
} else {
None
}
} else {
if v == 0xF96C {
Some(seq!['\u{585E}'])
} else {
None
}
}
} else {
if v < 0xF96E {
if v == 0xF96D {
Some(seq!['\u{7701}'])
} else {
None
}
} else {
if v == 0xF96E {
Some(seq!['\u{8449}'])
} else {
None
}
}
}
}
}
} else {
if v < 0xF977 {
if v < 0xF973 {
if v < 0xF971 {
if v < 0xF970 {
if v == 0xF96F {
Some(seq!['\u{8AAA}'])
} else {
None
}
} else {
if v == 0xF970 {
Some(seq!['\u{6BBA}'])
} else {
None
}
}
} else {
if v < 0xF972 {
if v == 0xF971 {
Some(seq!['\u{8FB0}'])
} else {
None
}
} else {
if v == 0xF972 {
Some(seq!['\u{6C88}'])
} else {
None
}
}
}
} else {
if v < 0xF975 {
if v < 0xF974 {
if v == 0xF973 {
Some(seq!['\u{62FE}'])
} else {
None
}
} else {
if v == 0xF974 {
Some(seq!['\u{82E5}'])
} else {
None
}
}
} else {
if v < 0xF976 {
if v == 0xF975 {
Some(seq!['\u{63A0}'])
} else {
None
}
} else {
if v == 0xF976 {
Some(seq!['\u{7565}'])
} else {
None
}
}
}
}
} else {
if v < 0xF97B {
if v < 0xF979 {
if v < 0xF978 {
if v == 0xF977 {
Some(seq!['\u{4EAE}'])
} else {
None
}
} else {
if v == 0xF978 {
Some(seq!['\u{5169}'])
} else {
None
}
}
} else {
if v < 0xF97A {
if v == 0xF979 {
Some(seq!['\u{51C9}'])
} else {
None
}
} else {
if v == 0xF97A {
Some(seq!['\u{6881}'])
} else {
None
}
}
}
} else {
if v < 0xF97D {
if v < 0xF97C {
if v == 0xF97B {
Some(seq!['\u{7CE7}'])
} else {
None
}
} else {
if v == 0xF97C {
Some(seq!['\u{826F}'])
} else {
None
}
}
} else {
if v < 0xF97E {
if v == 0xF97D {
Some(seq!['\u{8AD2}'])
} else {
None
}
} else {
if v == 0xF97E {
Some(seq!['\u{91CF}'])
} else {
None
}
}
}
}
}
}
} else {
if v < 0xF98F {
if v < 0xF987 {
if v < 0xF983 {
if v < 0xF981 {
if v < 0xF980 {
if v == 0xF97F {
Some(seq!['\u{52F5}'])
} else {
None
}
} else {
if v == 0xF980 {
Some(seq!['\u{5442}'])
} else {
None
}
}
} else {
if v < 0xF982 {
if v == 0xF981 {
Some(seq!['\u{5973}'])
} else {
None
}
} else {
if v == 0xF982 {
Some(seq!['\u{5EEC}'])
} else {
None
}
}
}
} else {
if v < 0xF985 {
if v < 0xF984 {
if v == 0xF983 {
Some(seq!['\u{65C5}'])
} else {
None
}
} else {
if v == 0xF984 {
Some(seq!['\u{6FFE}'])
} else {
None
}
}
} else {
if v < 0xF986 {
if v == 0xF985 {
Some(seq!['\u{792A}'])
} else {
None
}
} else {
if v == 0xF986 {
Some(seq!['\u{95AD}'])
} else {
None
}
}
}
}
} else {
if v < 0xF98B {
if v < 0xF989 {
if v < 0xF988 {
if v == 0xF987 {
Some(seq!['\u{9A6A}'])
} else {
None
}
} else {
if v == 0xF988 {
Some(seq!['\u{9E97}'])
} else {
None
}
}
} else {
if v < 0xF98A {
if v == 0xF989 {
Some(seq!['\u{9ECE}'])
} else {
None
}
} else {
if v == 0xF98A {
Some(seq!['\u{529B}'])
} else {
None
}
}
}
} else {
if v < 0xF98D {
if v < 0xF98C {
if v == 0xF98B {
Some(seq!['\u{66C6}'])
} else {
None
}
} else {
if v == 0xF98C {
Some(seq!['\u{6B77}'])
} else {
None
}
}
} else {
if v < 0xF98E {
if v == 0xF98D {
Some(seq!['\u{8F62}'])
} else {
None
}
} else {
if v == 0xF98E {
Some(seq!['\u{5E74}'])
} else {
None
}
}
}
}
}
} else {
if v < 0xF997 {
if v < 0xF993 {
if v < 0xF991 {
if v < 0xF990 {
if v == 0xF98F {
Some(seq!['\u{6190}'])
} else {
None
}
} else {
if v == 0xF990 {
Some(seq!['\u{6200}'])
} else {
None
}
}
} else {
if v < 0xF992 {
if v == 0xF991 {
Some(seq!['\u{649A}'])
} else {
None
}
} else {
if v == 0xF992 {
Some(seq!['\u{6F23}'])
} else {
None
}
}
}
} else {
if v < 0xF995 {
if v < 0xF994 {
if v == 0xF993 {
Some(seq!['\u{7149}'])
} else {
None
}
} else {
if v == 0xF994 {
Some(seq!['\u{7489}'])
} else {
None
}
}
} else {
if v < 0xF996 {
if v == 0xF995 {
Some(seq!['\u{79CA}'])
} else {
None
}
} else {
if v == 0xF996 {
Some(seq!['\u{7DF4}'])
} else {
None
}
}
}
}
} else {
if v < 0xF99B {
if v < 0xF999 {
if v < 0xF998 {
if v == 0xF997 {
Some(seq!['\u{806F}'])
} else {
None
}
} else {
if v == 0xF998 {
Some(seq!['\u{8F26}'])
} else {
None
}
}
} else {
if v < 0xF99A {
if v == 0xF999 {
Some(seq!['\u{84EE}'])
} else {
None
}
} else {
if v == 0xF99A {
Some(seq!['\u{9023}'])
} else {
None
}
}
}
} else {
if v < 0xF99D {
if v < 0xF99C {
if v == 0xF99B {
Some(seq!['\u{934A}'])
} else {
None
}
} else {
if v == 0xF99C {
Some(seq!['\u{5217}'])
} else {
None
}
}
} else {
if v < 0xF99E {
if v == 0xF99D {
Some(seq!['\u{52A3}'])
} else {
None
}
} else {
if v == 0xF99E {
Some(seq!['\u{54BD}'])
} else {
None
}
}
}
}
}
}
}
}
} else {
if v < 0xF9DF {
if v < 0xF9BF {
if v < 0xF9AF {
if v < 0xF9A7 {
if v < 0xF9A3 {
if v < 0xF9A1 {
if v < 0xF9A0 {
if v == 0xF99F {
Some(seq!['\u{70C8}'])
} else {
None
}
} else {
if v == 0xF9A0 {
Some(seq!['\u{88C2}'])
} else {
None
}
}
} else {
if v < 0xF9A2 {
if v == 0xF9A1 {
Some(seq!['\u{8AAA}'])
} else {
None
}
} else {
if v == 0xF9A2 {
Some(seq!['\u{5EC9}'])
} else {
None
}
}
}
} else {
if v < 0xF9A5 {
if v < 0xF9A4 {
if v == 0xF9A3 {
Some(seq!['\u{5FF5}'])
} else {
None
}
} else {
if v == 0xF9A4 {
Some(seq!['\u{637B}'])
} else {
None
}
}
} else {
if v < 0xF9A6 {
if v == 0xF9A5 {
Some(seq!['\u{6BAE}'])
} else {
None
}
} else {
if v == 0xF9A6 {
Some(seq!['\u{7C3E}'])
} else {
None
}
}
}
}
} else {
if v < 0xF9AB {
if v < 0xF9A9 {
if v < 0xF9A8 {
if v == 0xF9A7 {
Some(seq!['\u{7375}'])
} else {
None
}
} else {
if v == 0xF9A8 {
Some(seq!['\u{4EE4}'])
} else {
None
}
}
} else {
if v < 0xF9AA {
if v == 0xF9A9 {
Some(seq!['\u{56F9}'])
} else {
None
}
} else {
if v == 0xF9AA {
Some(seq!['\u{5BE7}'])
} else {
None
}
}
}
} else {
if v < 0xF9AD {
if v < 0xF9AC {
if v == 0xF9AB {
Some(seq!['\u{5DBA}'])
} else {
None
}
} else {
if v == 0xF9AC {
Some(seq!['\u{601C}'])
} else {
None
}
}
} else {
if v < 0xF9AE {
if v == 0xF9AD {
Some(seq!['\u{73B2}'])
} else {
None
}
} else {
if v == 0xF9AE {
Some(seq!['\u{7469}'])
} else {
None
}
}
}
}
}
} else {
if v < 0xF9B7 {
if v < 0xF9B3 {
if v < 0xF9B1 {
if v < 0xF9B0 {
if v == 0xF9AF {
Some(seq!['\u{7F9A}'])
} else {
None
}
} else {
if v == 0xF9B0 {
Some(seq!['\u{8046}'])
} else {
None
}
}
} else {
if v < 0xF9B2 {
if v == 0xF9B1 {
Some(seq!['\u{9234}'])
} else {
None
}
} else {
if v == 0xF9B2 {
Some(seq!['\u{96F6}'])
} else {
None
}
}
}
} else {
if v < 0xF9B5 {
if v < 0xF9B4 {
if v == 0xF9B3 {
Some(seq!['\u{9748}'])
} else {
None
}
} else {
if v == 0xF9B4 {
Some(seq!['\u{9818}'])
} else {
None
}
}
} else {
if v < 0xF9B6 {
if v == 0xF9B5 {
Some(seq!['\u{4F8B}'])
} else {
None
}
} else {
if v == 0xF9B6 {
Some(seq!['\u{79AE}'])
} else {
None
}
}
}
}
} else {
if v < 0xF9BB {
if v < 0xF9B9 {
if v < 0xF9B8 {
if v == 0xF9B7 {
Some(seq!['\u{91B4}'])
} else {
None
}
} else {
if v == 0xF9B8 {
Some(seq!['\u{96B8}'])
} else {
None
}
}
} else {
if v < 0xF9BA {
if v == 0xF9B9 {
Some(seq!['\u{60E1}'])
} else {
None
}
} else {
if v == 0xF9BA {
Some(seq!['\u{4E86}'])
} else {
None
}
}
}
} else {
if v < 0xF9BD {
if v < 0xF9BC {
if v == 0xF9BB {
Some(seq!['\u{50DA}'])
} else {
None
}
} else {
if v == 0xF9BC {
Some(seq!['\u{5BEE}'])
} else {
None
}
}
} else {
if v < 0xF9BE {
if v == 0xF9BD {
Some(seq!['\u{5C3F}'])
} else {
None
}
} else {
if v == 0xF9BE {
Some(seq!['\u{6599}'])
} else {
None
}
}
}
}
}
}
} else {
if v < 0xF9CF {
if v < 0xF9C7 {
if v < 0xF9C3 {
if v < 0xF9C1 {
if v < 0xF9C0 {
if v == 0xF9BF {
Some(seq!['\u{6A02}'])
} else {
None
}
} else {
if v == 0xF9C0 {
Some(seq!['\u{71CE}'])
} else {
None
}
}
} else {
if v < 0xF9C2 {
if v == 0xF9C1 {
Some(seq!['\u{7642}'])
} else {
None
}
} else {
if v == 0xF9C2 {
Some(seq!['\u{84FC}'])
} else {
None
}
}
}
} else {
if v < 0xF9C5 {
if v < 0xF9C4 {
if v == 0xF9C3 {
Some(seq!['\u{907C}'])
} else {
None
}
} else {
if v == 0xF9C4 {
Some(seq!['\u{9F8D}'])
} else {
None
}
}
} else {
if v < 0xF9C6 {
if v == 0xF9C5 {
Some(seq!['\u{6688}'])
} else {
None
}
} else {
if v == 0xF9C6 {
Some(seq!['\u{962E}'])
} else {
None
}
}
}
}
} else {
if v < 0xF9CB {
if v < 0xF9C9 {
if v < 0xF9C8 {
if v == 0xF9C7 {
Some(seq!['\u{5289}'])
} else {
None
}
} else {
if v == 0xF9C8 {
Some(seq!['\u{677B}'])
} else {
None
}
}
} else {
if v < 0xF9CA {
if v == 0xF9C9 {
Some(seq!['\u{67F3}'])
} else {
None
}
} else {
if v == 0xF9CA {
Some(seq!['\u{6D41}'])
} else {
None
}
}
}
} else {
if v < 0xF9CD {
if v < 0xF9CC {
if v == 0xF9CB {
Some(seq!['\u{6E9C}'])
} else {
None
}
} else {
if v == 0xF9CC {
Some(seq!['\u{7409}'])
} else {
None
}
}
} else {
if v < 0xF9CE {
if v == 0xF9CD {
Some(seq!['\u{7559}'])
} else {
None
}
} else {
if v == 0xF9CE {
Some(seq!['\u{786B}'])
} else {
None
}
}
}
}
}
} else {
if v < 0xF9D7 {
if v < 0xF9D3 {
if v < 0xF9D1 {
if v < 0xF9D0 {
if v == 0xF9CF {
Some(seq!['\u{7D10}'])
} else {
None
}
} else {
if v == 0xF9D0 {
Some(seq!['\u{985E}'])
} else {
None
}
}
} else {
if v < 0xF9D2 {
if v == 0xF9D1 {
Some(seq!['\u{516D}'])
} else {
None
}
} else {
if v == 0xF9D2 {
Some(seq!['\u{622E}'])
} else {
None
}
}
}
} else {
if v < 0xF9D5 {
if v < 0xF9D4 {
if v == 0xF9D3 {
Some(seq!['\u{9678}'])
} else {
None
}
} else {
if v == 0xF9D4 {
Some(seq!['\u{502B}'])
} else {
None
}
}
} else {
if v < 0xF9D6 {
if v == 0xF9D5 {
Some(seq!['\u{5D19}'])
} else {
None
}
} else {
if v == 0xF9D6 {
Some(seq!['\u{6DEA}'])
} else {
None
}
}
}
}
} else {
if v < 0xF9DB {
if v < 0xF9D9 {
if v < 0xF9D8 {
if v == 0xF9D7 {
Some(seq!['\u{8F2A}'])
} else {
None
}
} else {
if v == 0xF9D8 {
Some(seq!['\u{5F8B}'])
} else {
None
}
}
} else {
if v < 0xF9DA {
if v == 0xF9D9 {
Some(seq!['\u{6144}'])
} else {
None
}
} else {
if v == 0xF9DA {
Some(seq!['\u{6817}'])
} else {
None
}
}
}
} else {
if v < 0xF9DD {
if v < 0xF9DC {
if v == 0xF9DB {
Some(seq!['\u{7387}'])
} else {
None
}
} else {
if v == 0xF9DC {
Some(seq!['\u{9686}'])
} else {
None
}
}
} else {
if v < 0xF9DE {
if v == 0xF9DD {
Some(seq!['\u{5229}'])
} else {
None
}
} else {
if v == 0xF9DE {
Some(seq!['\u{540F}'])
} else {
None
}
}
}
}
}
}
}
} else {
if v < 0xF9FF {
if v < 0xF9EF {
if v < 0xF9E7 {
if v < 0xF9E3 {
if v < 0xF9E1 {
if v < 0xF9E0 {
if v == 0xF9DF {
Some(seq!['\u{5C65}'])
} else {
None
}
} else {
if v == 0xF9E0 {
Some(seq!['\u{6613}'])
} else {
None
}
}
} else {
if v < 0xF9E2 {
if v == 0xF9E1 {
Some(seq!['\u{674E}'])
} else {
None
}
} else {
if v == 0xF9E2 {
Some(seq!['\u{68A8}'])
} else {
None
}
}
}
} else {
if v < 0xF9E5 {
if v < 0xF9E4 {
if v == 0xF9E3 {
Some(seq!['\u{6CE5}'])
} else {
None
}
} else {
if v == 0xF9E4 {
Some(seq!['\u{7406}'])
} else {
None
}
}
} else {
if v < 0xF9E6 {
if v == 0xF9E5 {
Some(seq!['\u{75E2}'])
} else {
None
}
} else {
if v == 0xF9E6 {
Some(seq!['\u{7F79}'])
} else {
None
}
}
}
}
} else {
if v < 0xF9EB {
if v < 0xF9E9 {
if v < 0xF9E8 {
if v == 0xF9E7 {
Some(seq!['\u{88CF}'])
} else {
None
}
} else {
if v == 0xF9E8 {
Some(seq!['\u{88E1}'])
} else {
None
}
}
} else {
if v < 0xF9EA {
if v == 0xF9E9 {
Some(seq!['\u{91CC}'])
} else {
None
}
} else {
if v == 0xF9EA {
Some(seq!['\u{96E2}'])
} else {
None
}
}
}
} else {
if v < 0xF9ED {
if v < 0xF9EC {
if v == 0xF9EB {
Some(seq!['\u{533F}'])
} else {
None
}
} else {
if v == 0xF9EC {
Some(seq!['\u{6EBA}'])
} else {
None
}
}
} else {
if v < 0xF9EE {
if v == 0xF9ED {
Some(seq!['\u{541D}'])
} else {
None
}
} else {
if v == 0xF9EE {
Some(seq!['\u{71D0}'])
} else {
None
}
}
}
}
}
} else {
if v < 0xF9F7 {
if v < 0xF9F3 {
if v < 0xF9F1 {
if v < 0xF9F0 {
if v == 0xF9EF {
Some(seq!['\u{7498}'])
} else {
None
}
} else {
if v == 0xF9F0 {
Some(seq!['\u{85FA}'])
} else {
None
}
}
} else {
if v < 0xF9F2 {
if v == 0xF9F1 {
Some(seq!['\u{96A3}'])
} else {
None
}
} else {
if v == 0xF9F2 {
Some(seq!['\u{9C57}'])
} else {
None
}
}
}
} else {
if v < 0xF9F5 {
if v < 0xF9F4 {
if v == 0xF9F3 {
Some(seq!['\u{9E9F}'])
} else {
None
}
} else {
if v == 0xF9F4 {
Some(seq!['\u{6797}'])
} else {
None
}
}
} else {
if v < 0xF9F6 {
if v == 0xF9F5 {
Some(seq!['\u{6DCB}'])
} else {
None
}
} else {
if v == 0xF9F6 {
Some(seq!['\u{81E8}'])
} else {
None
}
}
}
}
} else {
if v < 0xF9FB {
if v < 0xF9F9 {
if v < 0xF9F8 {
if v == 0xF9F7 {
Some(seq!['\u{7ACB}'])
} else {
None
}
} else {
if v == 0xF9F8 {
Some(seq!['\u{7B20}'])
} else {
None
}
}
} else {
if v < 0xF9FA {
if v == 0xF9F9 {
Some(seq!['\u{7C92}'])
} else {
None
}
} else {
if v == 0xF9FA {
Some(seq!['\u{72C0}'])
} else {
None
}
}
}
} else {
if v < 0xF9FD {
if v < 0xF9FC {
if v == 0xF9FB {
Some(seq!['\u{7099}'])
} else {
None
}
} else {
if v == 0xF9FC {
Some(seq!['\u{8B58}'])
} else {
None
}
}
} else {
if v < 0xF9FE {
if v == 0xF9FD {
Some(seq!['\u{4EC0}'])
} else {
None
}
} else {
if v == 0xF9FE {
Some(seq!['\u{8336}'])
} else {
None
}
}
}
}
}
}
} else {
if v < 0xFA12 {
if v < 0xFA07 {
if v < 0xFA03 {
if v < 0xFA01 {
if v < 0xFA00 {
if v == 0xF9FF {
Some(seq!['\u{523A}'])
} else {
None
}
} else {
if v == 0xFA00 {
Some(seq!['\u{5207}'])
} else {
None
}
}
} else {
if v < 0xFA02 {
if v == 0xFA01 {
Some(seq!['\u{5EA6}'])
} else {
None
}
} else {
if v == 0xFA02 {
Some(seq!['\u{62D3}'])
} else {
None
}
}
}
} else {
if v < 0xFA05 {
if v < 0xFA04 {
if v == 0xFA03 {
Some(seq!['\u{7CD6}'])
} else {
None
}
} else {
if v == 0xFA04 {
Some(seq!['\u{5B85}'])
} else {
None
}
}
} else {
if v < 0xFA06 {
if v == 0xFA05 {
Some(seq!['\u{6D1E}'])
} else {
None
}
} else {
if v == 0xFA06 {
Some(seq!['\u{66B4}'])
} else {
None
}
}
}
}
} else {
if v < 0xFA0B {
if v < 0xFA09 {
if v < 0xFA08 {
if v == 0xFA07 {
Some(seq!['\u{8F3B}'])
} else {
None
}
} else {
if v == 0xFA08 {
Some(seq!['\u{884C}'])
} else {
None
}
}
} else {
if v < 0xFA0A {
if v == 0xFA09 {
Some(seq!['\u{964D}'])
} else {
None
}
} else {
if v == 0xFA0A {
Some(seq!['\u{898B}'])
} else {
None
}
}
}
} else {
if v < 0xFA0D {
if v < 0xFA0C {
if v == 0xFA0B {
Some(seq!['\u{5ED3}'])
} else {
None
}
} else {
if v == 0xFA0C {
Some(seq!['\u{5140}'])
} else {
None
}
}
} else {
if v < 0xFA10 {
if v == 0xFA0D {
Some(seq!['\u{55C0}'])
} else {
None
}
} else {
if v == 0xFA10 {
Some(seq!['\u{585A}'])
} else {
None
}
}
}
}
}
} else {
if v < 0xFA1C {
if v < 0xFA18 {
if v < 0xFA16 {
if v < 0xFA15 {
if v == 0xFA12 {
Some(seq!['\u{6674}'])
} else {
None
}
} else {
if v == 0xFA15 {
Some(seq!['\u{51DE}'])
} else {
None
}
}
} else {
if v < 0xFA17 {
if v == 0xFA16 {
Some(seq!['\u{732A}'])
} else {
None
}
} else {
if v == 0xFA17 {
Some(seq!['\u{76CA}'])
} else {
None
}
}
}
} else {
if v < 0xFA1A {
if v < 0xFA19 {
if v == 0xFA18 {
Some(seq!['\u{793C}'])
} else {
None
}
} else {
if v == 0xFA19 {
Some(seq!['\u{795E}'])
} else {
None
}
}
} else {
if v < 0xFA1B {
if v == 0xFA1A {
Some(seq!['\u{7965}'])
} else {
None
}
} else {
if v == 0xFA1B {
Some(seq!['\u{798F}'])
} else {
None
}
}
}
}
} else {
if v < 0xFA22 {
if v < 0xFA1E {
if v < 0xFA1D {
if v == 0xFA1C {
Some(seq!['\u{9756}'])
} else {
None
}
} else {
if v == 0xFA1D {
Some(seq!['\u{7CBE}'])
} else {
None
}
}
} else {
if v < 0xFA20 {
if v == 0xFA1E {
Some(seq!['\u{7FBD}'])
} else {
None
}
} else {
if v == 0xFA20 {
Some(seq!['\u{8612}'])
} else {
None
}
}
}
} else {
if v < 0xFA26 {
if v < 0xFA25 {
if v == 0xFA22 {
Some(seq!['\u{8AF8}'])
} else {
None
}
} else {
if v == 0xFA25 {
Some(seq!['\u{9038}'])
} else {
None
}
}
} else {
if v < 0xFA2A {
if v == 0xFA26 {
Some(seq!['\u{90FD}'])
} else {
None
}
} else {
if v < 0xFA2B {
if v == 0xFA2A {
Some(seq!['\u{98EF}'])
} else {
None
}
} else {
if v == 0xFA2B {
Some(seq!['\u{98FC}'])
} else {
None
}
}
}
}
}
}
}
}
}
}
} else {
if v < 0xFAAF {
if v < 0xFA6C {
if v < 0xFA4C {
if v < 0xFA3C {
if v < 0xFA34 {
if v < 0xFA30 {
if v < 0xFA2E {
if v < 0xFA2D {
if v == 0xFA2C {
Some(seq!['\u{9928}'])
} else {
None
}
} else {
if v == 0xFA2D {
Some(seq!['\u{9DB4}'])
} else {
None
}
}
} else {
if v < 0xFA2F {
if v == 0xFA2E {
Some(seq!['\u{90DE}'])
} else {
None
}
} else {
if v == 0xFA2F {
Some(seq!['\u{96B7}'])
} else {
None
}
}
}
} else {
if v < 0xFA32 {
if v < 0xFA31 {
if v == 0xFA30 {
Some(seq!['\u{4FAE}'])
} else {
None
}
} else {
if v == 0xFA31 {
Some(seq!['\u{50E7}'])
} else {
None
}
}
} else {
if v < 0xFA33 {
if v == 0xFA32 {
Some(seq!['\u{514D}'])
} else {
None
}
} else {
if v == 0xFA33 {
Some(seq!['\u{52C9}'])
} else {
None
}
}
}
}
} else {
if v < 0xFA38 {
if v < 0xFA36 {
if v < 0xFA35 {
if v == 0xFA34 {
Some(seq!['\u{52E4}'])
} else {
None
}
} else {
if v == 0xFA35 {
Some(seq!['\u{5351}'])
} else {
None
}
}
} else {
if v < 0xFA37 {
if v == 0xFA36 {
Some(seq!['\u{559D}'])
} else {
None
}
} else {
if v == 0xFA37 {
Some(seq!['\u{5606}'])
} else {
None
}
}
}
} else {
if v < 0xFA3A {
if v < 0xFA39 {
if v == 0xFA38 {
Some(seq!['\u{5668}'])
} else {
None
}
} else {
if v == 0xFA39 {
Some(seq!['\u{5840}'])
} else {
None
}
}
} else {
if v < 0xFA3B {
if v == 0xFA3A {
Some(seq!['\u{58A8}'])
} else {
None
}
} else {
if v == 0xFA3B {
Some(seq!['\u{5C64}'])
} else {
None
}
}
}
}
}
} else {
if v < 0xFA44 {
if v < 0xFA40 {
if v < 0xFA3E {
if v < 0xFA3D {
if v == 0xFA3C {
Some(seq!['\u{5C6E}'])
} else {
None
}
} else {
if v == 0xFA3D {
Some(seq!['\u{6094}'])
} else {
None
}
}
} else {
if v < 0xFA3F {
if v == 0xFA3E {
Some(seq!['\u{6168}'])
} else {
None
}
} else {
if v == 0xFA3F {
Some(seq!['\u{618E}'])
} else {
None
}
}
}
} else {
if v < 0xFA42 {
if v < 0xFA41 {
if v == 0xFA40 {
Some(seq!['\u{61F2}'])
} else {
None
}
} else {
if v == 0xFA41 {
Some(seq!['\u{654F}'])
} else {
None
}
}
} else {
if v < 0xFA43 {
if v == 0xFA42 {
Some(seq!['\u{65E2}'])
} else {
None
}
} else {
if v == 0xFA43 {
Some(seq!['\u{6691}'])
} else {
None
}
}
}
}
} else {
if v < 0xFA48 {
if v < 0xFA46 {
if v < 0xFA45 {
if v == 0xFA44 {
Some(seq!['\u{6885}'])
} else {
None
}
} else {
if v == 0xFA45 {
Some(seq!['\u{6D77}'])
} else {
None
}
}
} else {
if v < 0xFA47 {
if v == 0xFA46 {
Some(seq!['\u{6E1A}'])
} else {
None
}
} else {
if v == 0xFA47 {
Some(seq!['\u{6F22}'])
} else {
None
}
}
}
} else {
if v < 0xFA4A {
if v < 0xFA49 {
if v == 0xFA48 {
Some(seq!['\u{716E}'])
} else {
None
}
} else {
if v == 0xFA49 {
Some(seq!['\u{722B}'])
} else {
None
}
}
} else {
if v < 0xFA4B {
if v == 0xFA4A {
Some(seq!['\u{7422}'])
} else {
None
}
} else {
if v == 0xFA4B {
Some(seq!['\u{7891}'])
} else {
None
}
}
}
}
}
}
} else {
if v < 0xFA5C {
if v < 0xFA54 {
if v < 0xFA50 {
if v < 0xFA4E {
if v < 0xFA4D {
if v == 0xFA4C {
Some(seq!['\u{793E}'])
} else {
None
}
} else {
if v == 0xFA4D {
Some(seq!['\u{7949}'])
} else {
None
}
}
} else {
if v < 0xFA4F {
if v == 0xFA4E {
Some(seq!['\u{7948}'])
} else {
None
}
} else {
if v == 0xFA4F {
Some(seq!['\u{7950}'])
} else {
None
}
}
}
} else {
if v < 0xFA52 {
if v < 0xFA51 {
if v == 0xFA50 {
Some(seq!['\u{7956}'])
} else {
None
}
} else {
if v == 0xFA51 {
Some(seq!['\u{795D}'])
} else {
None
}
}
} else {
if v < 0xFA53 {
if v == 0xFA52 {
Some(seq!['\u{798D}'])
} else {
None
}
} else {
if v == 0xFA53 {
Some(seq!['\u{798E}'])
} else {
None
}
}
}
}
} else {
if v < 0xFA58 {
if v < 0xFA56 {
if v < 0xFA55 {
if v == 0xFA54 {
Some(seq!['\u{7A40}'])
} else {
None
}
} else {
if v == 0xFA55 {
Some(seq!['\u{7A81}'])
} else {
None
}
}
} else {
if v < 0xFA57 {
if v == 0xFA56 {
Some(seq!['\u{7BC0}'])
} else {
None
}
} else {
if v == 0xFA57 {
Some(seq!['\u{7DF4}'])
} else {
None
}
}
}
} else {
if v < 0xFA5A {
if v < 0xFA59 {
if v == 0xFA58 {
Some(seq!['\u{7E09}'])
} else {
None
}
} else {
if v == 0xFA59 {
Some(seq!['\u{7E41}'])
} else {
None
}
}
} else {
if v < 0xFA5B {
if v == 0xFA5A {
Some(seq!['\u{7F72}'])
} else {
None
}
} else {
if v == 0xFA5B {
Some(seq!['\u{8005}'])
} else {
None
}
}
}
}
}
} else {
if v < 0xFA64 {
if v < 0xFA60 {
if v < 0xFA5E {
if v < 0xFA5D {
if v == 0xFA5C {
Some(seq!['\u{81ED}'])
} else {
None
}
} else {
if v == 0xFA5D {
Some(seq!['\u{8279}'])
} else {
None
}
}
} else {
if v < 0xFA5F {
if v == 0xFA5E {
Some(seq!['\u{8279}'])
} else {
None
}
} else {
if v == 0xFA5F {
Some(seq!['\u{8457}'])
} else {
None
}
}
}
} else {
if v < 0xFA62 {
if v < 0xFA61 {
if v == 0xFA60 {
Some(seq!['\u{8910}'])
} else {
None
}
} else {
if v == 0xFA61 {
Some(seq!['\u{8996}'])
} else {
None
}
}
} else {
if v < 0xFA63 {
if v == 0xFA62 {
Some(seq!['\u{8B01}'])
} else {
None
}
} else {
if v == 0xFA63 {
Some(seq!['\u{8B39}'])
} else {
None
}
}
}
}
} else {
if v < 0xFA68 {
if v < 0xFA66 {
if v < 0xFA65 {
if v == 0xFA64 {
Some(seq!['\u{8CD3}'])
} else {
None
}
} else {
if v == 0xFA65 {
Some(seq!['\u{8D08}'])
} else {
None
}
}
} else {
if v < 0xFA67 {
if v == 0xFA66 {
Some(seq!['\u{8FB6}'])
} else {
None
}
} else {
if v == 0xFA67 {
Some(seq!['\u{9038}'])
} else {
None
}
}
}
} else {
if v < 0xFA6A {
if v < 0xFA69 {
if v == 0xFA68 {
Some(seq!['\u{96E3}'])
} else {
None
}
} else {
if v == 0xFA69 {
Some(seq!['\u{97FF}'])
} else {
None
}
}
} else {
if v < 0xFA6B {
if v == 0xFA6A {
Some(seq!['\u{983B}'])
} else {
None
}
} else {
if v == 0xFA6B {
Some(seq!['\u{6075}'])
} else {
None
}
}
}
}
}
}
}
} else {
if v < 0xFA8E {
if v < 0xFA7E {
if v < 0xFA76 {
if v < 0xFA72 {
if v < 0xFA70 {
if v < 0xFA6D {
if v == 0xFA6C {
Some(seq!['\u{242EE}'])
} else {
None
}
} else {
if v == 0xFA6D {
Some(seq!['\u{8218}'])
} else {
None
}
}
} else {
if v < 0xFA71 {
if v == 0xFA70 {
Some(seq!['\u{4E26}'])
} else {
None
}
} else {
if v == 0xFA71 {
Some(seq!['\u{51B5}'])
} else {
None
}
}
}
} else {
if v < 0xFA74 {
if v < 0xFA73 {
if v == 0xFA72 {
Some(seq!['\u{5168}'])
} else {
None
}
} else {
if v == 0xFA73 {
Some(seq!['\u{4F80}'])
} else {
None
}
}
} else {
if v < 0xFA75 {
if v == 0xFA74 {
Some(seq!['\u{5145}'])
} else {
None
}
} else {
if v == 0xFA75 {
Some(seq!['\u{5180}'])
} else {
None
}
}
}
}
} else {
if v < 0xFA7A {
if v < 0xFA78 {
if v < 0xFA77 {
if v == 0xFA76 {
Some(seq!['\u{52C7}'])
} else {
None
}
} else {
if v == 0xFA77 {
Some(seq!['\u{52FA}'])
} else {
None
}
}
} else {
if v < 0xFA79 {
if v == 0xFA78 {
Some(seq!['\u{559D}'])
} else {
None
}
} else {
if v == 0xFA79 {
Some(seq!['\u{5555}'])
} else {
None
}
}
}
} else {
if v < 0xFA7C {
if v < 0xFA7B {
if v == 0xFA7A {
Some(seq!['\u{5599}'])
} else {
None
}
} else {
if v == 0xFA7B {
Some(seq!['\u{55E2}'])
} else {
None
}
}
} else {
if v < 0xFA7D {
if v == 0xFA7C {
Some(seq!['\u{585A}'])
} else {
None
}
} else {
if v == 0xFA7D {
Some(seq!['\u{58B3}'])
} else {
None
}
}
}
}
}
} else {
if v < 0xFA86 {
if v < 0xFA82 {
if v < 0xFA80 {
if v < 0xFA7F {
if v == 0xFA7E {
Some(seq!['\u{5944}'])
} else {
None
}
} else {
if v == 0xFA7F {
Some(seq!['\u{5954}'])
} else {
None
}
}
} else {
if v < 0xFA81 {
if v == 0xFA80 {
Some(seq!['\u{5A62}'])
} else {
None
}
} else {
if v == 0xFA81 {
Some(seq!['\u{5B28}'])
} else {
None
}
}
}
} else {
if v < 0xFA84 {
if v < 0xFA83 {
if v == 0xFA82 {
Some(seq!['\u{5ED2}'])
} else {
None
}
} else {
if v == 0xFA83 {
Some(seq!['\u{5ED9}'])
} else {
None
}
}
} else {
if v < 0xFA85 {
if v == 0xFA84 {
Some(seq!['\u{5F69}'])
} else {
None
}
} else {
if v == 0xFA85 {
Some(seq!['\u{5FAD}'])
} else {
None
}
}
}
}
} else {
if v < 0xFA8A {
if v < 0xFA88 {
if v < 0xFA87 {
if v == 0xFA86 {
Some(seq!['\u{60D8}'])
} else {
None
}
} else {
if v == 0xFA87 {
Some(seq!['\u{614E}'])
} else {
None
}
}
} else {
if v < 0xFA89 {
if v == 0xFA88 {
Some(seq!['\u{6108}'])
} else {
None
}
} else {
if v == 0xFA89 {
Some(seq!['\u{618E}'])
} else {
None
}
}
}
} else {
if v < 0xFA8C {
if v < 0xFA8B {
if v == 0xFA8A {
Some(seq!['\u{6160}'])
} else {
None
}
} else {
if v == 0xFA8B {
Some(seq!['\u{61F2}'])
} else {
None
}
}
} else {
if v < 0xFA8D {
if v == 0xFA8C {
Some(seq!['\u{6234}'])
} else {
None
}
} else {
if v == 0xFA8D {
Some(seq!['\u{63C4}'])
} else {
None
}
}
}
}
}
}
} else {
if v < 0xFA9E {
if v < 0xFA96 {
if v < 0xFA92 {
if v < 0xFA90 {
if v < 0xFA8F {
if v == 0xFA8E {
Some(seq!['\u{641C}'])
} else {
None
}
} else {
if v == 0xFA8F {
Some(seq!['\u{6452}'])
} else {
None
}
}
} else {
if v < 0xFA91 {
if v == 0xFA90 {
Some(seq!['\u{6556}'])
} else {
None
}
} else {
if v == 0xFA91 {
Some(seq!['\u{6674}'])
} else {
None
}
}
}
} else {
if v < 0xFA94 {
if v < 0xFA93 {
if v == 0xFA92 {
Some(seq!['\u{6717}'])
} else {
None
}
} else {
if v == 0xFA93 {
Some(seq!['\u{671B}'])
} else {
None
}
}
} else {
if v < 0xFA95 {
if v == 0xFA94 {
Some(seq!['\u{6756}'])
} else {
None
}
} else {
if v == 0xFA95 {
Some(seq!['\u{6B79}'])
} else {
None
}
}
}
}
} else {
if v < 0xFA9A {
if v < 0xFA98 {
if v < 0xFA97 {
if v == 0xFA96 {
Some(seq!['\u{6BBA}'])
} else {
None
}
} else {
if v == 0xFA97 {
Some(seq!['\u{6D41}'])
} else {
None
}
}
} else {
if v < 0xFA99 {
if v == 0xFA98 {
Some(seq!['\u{6EDB}'])
} else {
None
}
} else {
if v == 0xFA99 {
Some(seq!['\u{6ECB}'])
} else {
None
}
}
}
} else {
if v < 0xFA9C {
if v < 0xFA9B {
if v == 0xFA9A {
Some(seq!['\u{6F22}'])
} else {
None
}
} else {
if v == 0xFA9B {
Some(seq!['\u{701E}'])
} else {
None
}
}
} else {
if v < 0xFA9D {
if v == 0xFA9C {
Some(seq!['\u{716E}'])
} else {
None
}
} else {
if v == 0xFA9D {
Some(seq!['\u{77A7}'])
} else {
None
}
}
}
}
}
} else {
if v < 0xFAA6 {
if v < 0xFAA2 {
if v < 0xFAA0 {
if v < 0xFA9F {
if v == 0xFA9E {
Some(seq!['\u{7235}'])
} else {
None
}
} else {
if v == 0xFA9F {
Some(seq!['\u{72AF}'])
} else {
None
}
}
} else {
if v < 0xFAA1 {
if v == 0xFAA0 {
Some(seq!['\u{732A}'])
} else {
None
}
} else {
if v == 0xFAA1 {
Some(seq!['\u{7471}'])
} else {
None
}
}
}
} else {
if v < 0xFAA4 {
if v < 0xFAA3 {
if v == 0xFAA2 {
Some(seq!['\u{7506}'])
} else {
None
}
} else {
if v == 0xFAA3 {
Some(seq!['\u{753B}'])
} else {
None
}
}
} else {
if v < 0xFAA5 {
if v == 0xFAA4 {
Some(seq!['\u{761D}'])
} else {
None
}
} else {
if v == 0xFAA5 {
Some(seq!['\u{761F}'])
} else {
None
}
}
}
}
} else {
if v < 0xFAAA {
if v < 0xFAA8 {
if v < 0xFAA7 {
if v == 0xFAA6 {
Some(seq!['\u{76CA}'])
} else {
None
}
} else {
if v == 0xFAA7 {
Some(seq!['\u{76DB}'])
} else {
None
}
}
} else {
if v < 0xFAA9 {
if v == 0xFAA8 {
Some(seq!['\u{76F4}'])
} else {
None
}
} else {
if v == 0xFAA9 {
Some(seq!['\u{774A}'])
} else {
None
}
}
}
} else {
if v < 0xFAAC {
if v < 0xFAAB {
if v == 0xFAAA {
Some(seq!['\u{7740}'])
} else {
None
}
} else {
if v == 0xFAAB {
Some(seq!['\u{78CC}'])
} else {
None
}
}
} else {
if v < 0xFAAD {
if v == 0xFAAC {
Some(seq!['\u{7AB1}'])
} else {
None
}
} else {
if v < 0xFAAE {
if v == 0xFAAD {
Some(seq!['\u{7BC0}'])
} else {
None
}
} else {
if v == 0xFAAE {
Some(seq!['\u{7C7B}'])
} else {
None
}
}
}
}
}
}
}
}
}
} else {
if v < 0xFB40 {
if v < 0xFACF {
if v < 0xFABF {
if v < 0xFAB7 {
if v < 0xFAB3 {
if v < 0xFAB1 {
if v < 0xFAB0 {
if v == 0xFAAF {
Some(seq!['\u{7D5B}'])
} else {
None
}
} else {
if v == 0xFAB0 {
Some(seq!['\u{7DF4}'])
} else {
None
}
}
} else {
if v < 0xFAB2 {
if v == 0xFAB1 {
Some(seq!['\u{7F3E}'])
} else {
None
}
} else {
if v == 0xFAB2 {
Some(seq!['\u{8005}'])
} else {
None
}
}
}
} else {
if v < 0xFAB5 {
if v < 0xFAB4 {
if v == 0xFAB3 {
Some(seq!['\u{8352}'])
} else {
None
}
} else {
if v == 0xFAB4 {
Some(seq!['\u{83EF}'])
} else {
None
}
}
} else {
if v < 0xFAB6 {
if v == 0xFAB5 {
Some(seq!['\u{8779}'])
} else {
None
}
} else {
if v == 0xFAB6 {
Some(seq!['\u{8941}'])
} else {
None
}
}
}
}
} else {
if v < 0xFABB {
if v < 0xFAB9 {
if v < 0xFAB8 {
if v == 0xFAB7 {
Some(seq!['\u{8986}'])
} else {
None
}
} else {
if v == 0xFAB8 {
Some(seq!['\u{8996}'])
} else {
None
}
}
} else {
if v < 0xFABA {
if v == 0xFAB9 {
Some(seq!['\u{8ABF}'])
} else {
None
}
} else {
if v == 0xFABA {
Some(seq!['\u{8AF8}'])
} else {
None
}
}
}
} else {
if v < 0xFABD {
if v < 0xFABC {
if v == 0xFABB {
Some(seq!['\u{8ACB}'])
} else {
None
}
} else {
if v == 0xFABC {
Some(seq!['\u{8B01}'])
} else {
None
}
}
} else {
if v < 0xFABE {
if v == 0xFABD {
Some(seq!['\u{8AFE}'])
} else {
None
}
} else {
if v == 0xFABE {
Some(seq!['\u{8AED}'])
} else {
None
}
}
}
}
}
} else {
if v < 0xFAC7 {
if v < 0xFAC3 {
if v < 0xFAC1 {
if v < 0xFAC0 {
if v == 0xFABF {
Some(seq!['\u{8B39}'])
} else {
None
}
} else {
if v == 0xFAC0 {
Some(seq!['\u{8B8A}'])
} else {
None
}
}
} else {
if v < 0xFAC2 {
if v == 0xFAC1 {
Some(seq!['\u{8D08}'])
} else {
None
}
} else {
if v == 0xFAC2 {
Some(seq!['\u{8F38}'])
} else {
None
}
}
}
} else {
if v < 0xFAC5 {
if v < 0xFAC4 {
if v == 0xFAC3 {
Some(seq!['\u{9072}'])
} else {
None
}
} else {
if v == 0xFAC4 {
Some(seq!['\u{9199}'])
} else {
None
}
}
} else {
if v < 0xFAC6 {
if v == 0xFAC5 {
Some(seq!['\u{9276}'])
} else {
None
}
} else {
if v == 0xFAC6 {
Some(seq!['\u{967C}'])
} else {
None
}
}
}
}
} else {
if v < 0xFACB {
if v < 0xFAC9 {
if v < 0xFAC8 {
if v == 0xFAC7 {
Some(seq!['\u{96E3}'])
} else {
None
}
} else {
if v == 0xFAC8 {
Some(seq!['\u{9756}'])
} else {
None
}
}
} else {
if v < 0xFACA {
if v == 0xFAC9 {
Some(seq!['\u{97DB}'])
} else {
None
}
} else {
if v == 0xFACA {
Some(seq!['\u{97FF}'])
} else {
None
}
}
}
} else {
if v < 0xFACD {
if v < 0xFACC {
if v == 0xFACB {
Some(seq!['\u{980B}'])
} else {
None
}
} else {
if v == 0xFACC {
Some(seq!['\u{983B}'])
} else {
None
}
}
} else {
if v < 0xFACE {
if v == 0xFACD {
Some(seq!['\u{9B12}'])
} else {
None
}
} else {
if v == 0xFACE {
Some(seq!['\u{9F9C}'])
} else {
None
}
}
}
}
}
}
} else {
if v < 0xFB2D {
if v < 0xFAD7 {
if v < 0xFAD3 {
if v < 0xFAD1 {
if v < 0xFAD0 {
if v == 0xFACF {
Some(seq!['\u{2284A}'])
} else {
None
}
} else {
if v == 0xFAD0 {
Some(seq!['\u{22844}'])
} else {
None
}
}
} else {
if v < 0xFAD2 {
if v == 0xFAD1 {
Some(seq!['\u{233D5}'])
} else {
None
}
} else {
if v == 0xFAD2 {
Some(seq!['\u{3B9D}'])
} else {
None
}
}
}
} else {
if v < 0xFAD5 {
if v < 0xFAD4 {
if v == 0xFAD3 {
Some(seq!['\u{4018}'])
} else {
None
}
} else {
if v == 0xFAD4 {
Some(seq!['\u{4039}'])
} else {
None
}
}
} else {
if v < 0xFAD6 {
if v == 0xFAD5 {
Some(seq!['\u{25249}'])
} else {
None
}
} else {
if v == 0xFAD6 {
Some(seq!['\u{25CD0}'])
} else {
None
}
}
}
}
} else {
if v < 0xFB1F {
if v < 0xFAD9 {
if v < 0xFAD8 {
if v == 0xFAD7 {
Some(seq!['\u{27ED3}'])
} else {
None
}
} else {
if v == 0xFAD8 {
Some(seq!['\u{9F43}'])
} else {
None
}
}
} else {
if v < 0xFB1D {
if v == 0xFAD9 {
Some(seq!['\u{9F8E}'])
} else {
None
}
} else {
if v == 0xFB1D {
Some(seq!['\u{5D9}', '\u{5B4}'])
} else {
None
}
}
}
} else {
if v < 0xFB2B {
if v < 0xFB2A {
if v == 0xFB1F {
Some(seq!['\u{5F2}', '\u{5B7}'])
} else {
None
}
} else {
if v == 0xFB2A {
Some(seq!['\u{5E9}', '\u{5C1}'])
} else {
None
}
}
} else {
if v < 0xFB2C {
if v == 0xFB2B {
Some(seq!['\u{5E9}', '\u{5C2}'])
} else {
None
}
} else {
if v == 0xFB2C {
Some(seq!['\u{5E9}', '\u{5BC}', '\u{5C1}'])
} else {
None
}
}
}
}
}
} else {
if v < 0xFB35 {
if v < 0xFB31 {
if v < 0xFB2F {
if v < 0xFB2E {
if v == 0xFB2D {
Some(seq!['\u{5E9}', '\u{5BC}', '\u{5C2}'])
} else {
None
}
} else {
if v == 0xFB2E {
Some(seq!['\u{5D0}', '\u{5B7}'])
} else {
None
}
}
} else {
if v < 0xFB30 {
if v == 0xFB2F {
Some(seq!['\u{5D0}', '\u{5B8}'])
} else {
None
}
} else {
if v == 0xFB30 {
Some(seq!['\u{5D0}', '\u{5BC}'])
} else {
None
}
}
}
} else {
if v < 0xFB33 {
if v < 0xFB32 {
if v == 0xFB31 {
Some(seq!['\u{5D1}', '\u{5BC}'])
} else {
None
}
} else {
if v == 0xFB32 {
Some(seq!['\u{5D2}', '\u{5BC}'])
} else {
None
}
}
} else {
if v < 0xFB34 {
if v == 0xFB33 {
Some(seq!['\u{5D3}', '\u{5BC}'])
} else {
None
}
} else {
if v == 0xFB34 {
Some(seq!['\u{5D4}', '\u{5BC}'])
} else {
None
}
}
}
}
} else {
if v < 0xFB3A {
if v < 0xFB38 {
if v < 0xFB36 {
if v == 0xFB35 {
Some(seq!['\u{5D5}', '\u{5BC}'])
} else {
None
}
} else {
if v == 0xFB36 {
Some(seq!['\u{5D6}', '\u{5BC}'])
} else {
None
}
}
} else {
if v < 0xFB39 {
if v == 0xFB38 {
Some(seq!['\u{5D8}', '\u{5BC}'])
} else {
None
}
} else {
if v == 0xFB39 {
Some(seq!['\u{5D9}', '\u{5BC}'])
} else {
None
}
}
}
} else {
if v < 0xFB3C {
if v < 0xFB3B {
if v == 0xFB3A {
Some(seq!['\u{5DA}', '\u{5BC}'])
} else {
None
}
} else {
if v == 0xFB3B {
Some(seq!['\u{5DB}', '\u{5BC}'])
} else {
None
}
}
} else {
if v < 0xFB3E {
if v == 0xFB3C {
Some(seq!['\u{5DC}', '\u{5BC}'])
} else {
None
}
} else {
if v == 0xFB3E {
Some(seq!['\u{5DE}', '\u{5BC}'])
} else {
None
}
}
}
}
}
}
}
} else {
if v < 0x1D164 {
if v < 0x1112E {
if v < 0xFB4A {
if v < 0xFB46 {
if v < 0xFB43 {
if v < 0xFB41 {
if v == 0xFB40 {
Some(seq!['\u{5E0}', '\u{5BC}'])
} else {
None
}
} else {
if v == 0xFB41 {
Some(seq!['\u{5E1}', '\u{5BC}'])
} else {
None
}
}
} else {
if v < 0xFB44 {
if v == 0xFB43 {
Some(seq!['\u{5E3}', '\u{5BC}'])
} else {
None
}
} else {
if v == 0xFB44 {
Some(seq!['\u{5E4}', '\u{5BC}'])
} else {
None
}
}
}
} else {
if v < 0xFB48 {
if v < 0xFB47 {
if v == 0xFB46 {
Some(seq!['\u{5E6}', '\u{5BC}'])
} else {
None
}
} else {
if v == 0xFB47 {
Some(seq!['\u{5E7}', '\u{5BC}'])
} else {
None
}
}
} else {
if v < 0xFB49 {
if v == 0xFB48 {
Some(seq!['\u{5E8}', '\u{5BC}'])
} else {
None
}
} else {
if v == 0xFB49 {
Some(seq!['\u{5E9}', '\u{5BC}'])
} else {
None
}
}
}
}
} else {
if v < 0xFB4E {
if v < 0xFB4C {
if v < 0xFB4B {
if v == 0xFB4A {
Some(seq!['\u{5EA}', '\u{5BC}'])
} else {
None
}
} else {
if v == 0xFB4B {
Some(seq!['\u{5D5}', '\u{5B9}'])
} else {
None
}
}
} else {
if v < 0xFB4D {
if v == 0xFB4C {
Some(seq!['\u{5D1}', '\u{5BF}'])
} else {
None
}
} else {
if v == 0xFB4D {
Some(seq!['\u{5DB}', '\u{5BF}'])
} else {
None
}
}
}
} else {
if v < 0x1109C {
if v < 0x1109A {
if v == 0xFB4E {
Some(seq!['\u{5E4}', '\u{5BF}'])
} else {
None
}
} else {
if v == 0x1109A {
Some(seq!['\u{11099}', '\u{110BA}'])
} else {
None
}
}
} else {
if v < 0x110AB {
if v == 0x1109C {
Some(seq!['\u{1109B}', '\u{110BA}'])
} else {
None
}
} else {
if v == 0x110AB {
Some(seq!['\u{110A5}', '\u{110BA}'])
} else {
None
}
}
}
}
}
} else {
if v < 0x115BB {
if v < 0x114BB {
if v < 0x1134B {
if v < 0x1112F {
if v == 0x1112E {
Some(seq!['\u{11131}', '\u{11127}'])
} else {
None
}
} else {
if v == 0x1112F {
Some(seq!['\u{11132}', '\u{11127}'])
} else {
None
}
}
} else {
if v < 0x1134C {
if v == 0x1134B {
Some(seq!['\u{11347}', '\u{1133E}'])
} else {
None
}
} else {
if v == 0x1134C {
Some(seq!['\u{11347}', '\u{11357}'])
} else {
None
}
}
}
} else {
if v < 0x114BE {
if v < 0x114BC {
if v == 0x114BB {
Some(seq!['\u{114B9}', '\u{114BA}'])
} else {
None
}
} else {
if v == 0x114BC {
Some(seq!['\u{114B9}', '\u{114B0}'])
} else {
None
}
}
} else {
if v < 0x115BA {
if v == 0x114BE {
Some(seq!['\u{114B9}', '\u{114BD}'])
} else {
None
}
} else {
if v == 0x115BA {
Some(seq!['\u{115B8}', '\u{115AF}'])
} else {
None
}
}
}
}
} else {
if v < 0x1D160 {
if v < 0x1D15E {
if v < 0x11938 {
if v == 0x115BB {
Some(seq!['\u{115B9}', '\u{115AF}'])
} else {
None
}
} else {
if v == 0x11938 {
Some(seq!['\u{11935}', '\u{11930}'])
} else {
None
}
}
} else {
if v < 0x1D15F {
if v == 0x1D15E {
Some(seq!['\u{1D157}', '\u{1D165}'])
} else {
None
}
} else {
if v == 0x1D15F {
Some(seq!['\u{1D158}', '\u{1D165}'])
} else {
None
}
}
}
} else {
if v < 0x1D162 {
if v < 0x1D161 {
if v == 0x1D160 {
Some(seq!['\u{1D158}', '\u{1D165}', '\u{1D16E}'])
} else {
None
}
} else {
if v == 0x1D161 {
Some(seq!['\u{1D158}', '\u{1D165}', '\u{1D16F}'])
} else {
None
}
}
} else {
if v < 0x1D163 {
if v == 0x1D162 {
Some(seq!['\u{1D158}', '\u{1D165}', '\u{1D170}'])
} else {
None
}
} else {
if v == 0x1D163 {
Some(seq!['\u{1D158}', '\u{1D165}', '\u{1D171}'])
} else {
None
}
}
}
}
}
}
} else {
if v < 0x2F809 {
if v < 0x2F801 {
if v < 0x1D1BE {
if v < 0x1D1BC {
if v < 0x1D1BB {
if v == 0x1D164 {
Some(seq!['\u{1D158}', '\u{1D165}', '\u{1D172}'])
} else {
None
}
} else {
if v == 0x1D1BB {
Some(seq!['\u{1D1B9}', '\u{1D165}'])
} else {
None
}
}
} else {
if v < 0x1D1BD {
if v == 0x1D1BC {
Some(seq!['\u{1D1BA}', '\u{1D165}'])
} else {
None
}
} else {
if v == 0x1D1BD {
Some(seq!['\u{1D1B9}', '\u{1D165}', '\u{1D16E}'])
} else {
None
}
}
}
} else {
if v < 0x1D1C0 {
if v < 0x1D1BF {
if v == 0x1D1BE {
Some(seq!['\u{1D1BA}', '\u{1D165}', '\u{1D16E}'])
} else {
None
}
} else {
if v == 0x1D1BF {
Some(seq!['\u{1D1B9}', '\u{1D165}', '\u{1D16F}'])
} else {
None
}
}
} else {
if v < 0x2F800 {
if v == 0x1D1C0 {
Some(seq!['\u{1D1BA}', '\u{1D165}', '\u{1D16F}'])
} else {
None
}
} else {
if v == 0x2F800 {
Some(seq!['\u{4E3D}'])
} else {
None
}
}
}
}
} else {
if v < 0x2F805 {
if v < 0x2F803 {
if v < 0x2F802 {
if v == 0x2F801 {
Some(seq!['\u{4E38}'])
} else {
None
}
} else {
if v == 0x2F802 {
Some(seq!['\u{4E41}'])
} else {
None
}
}
} else {
if v < 0x2F804 {
if v == 0x2F803 {
Some(seq!['\u{20122}'])
} else {
None
}
} else {
if v == 0x2F804 {
Some(seq!['\u{4F60}'])
} else {
None
}
}
}
} else {
if v < 0x2F807 {
if v < 0x2F806 {
if v == 0x2F805 {
Some(seq!['\u{4FAE}'])
} else {
None
}
} else {
if v == 0x2F806 {
Some(seq!['\u{4FBB}'])
} else {
None
}
}
} else {
if v < 0x2F808 {
if v == 0x2F807 {
Some(seq!['\u{5002}'])
} else {
None
}
} else {
if v == 0x2F808 {
Some(seq!['\u{507A}'])
} else {
None
}
}
}
}
}
} else {
if v < 0x2F811 {
if v < 0x2F80D {
if v < 0x2F80B {
if v < 0x2F80A {
if v == 0x2F809 {
Some(seq!['\u{5099}'])
} else {
None
}
} else {
if v == 0x2F80A {
Some(seq!['\u{50E7}'])
} else {
None
}
}
} else {
if v < 0x2F80C {
if v == 0x2F80B {
Some(seq!['\u{50CF}'])
} else {
None
}
} else {
if v == 0x2F80C {
Some(seq!['\u{349E}'])
} else {
None
}
}
}
} else {
if v < 0x2F80F {
if v < 0x2F80E {
if v == 0x2F80D {
Some(seq!['\u{2063A}'])
} else {
None
}
} else {
if v == 0x2F80E {
Some(seq!['\u{514D}'])
} else {
None
}
}
} else {
if v < 0x2F810 {
if v == 0x2F80F {
Some(seq!['\u{5154}'])
} else {
None
}
} else {
if v == 0x2F810 {
Some(seq!['\u{5164}'])
} else {
None
}
}
}
}
} else {
if v < 0x2F815 {
if v < 0x2F813 {
if v < 0x2F812 {
if v == 0x2F811 {
Some(seq!['\u{5177}'])
} else {
None
}
} else {
if v == 0x2F812 {
Some(seq!['\u{2051C}'])
} else {
None
}
}
} else {
if v < 0x2F814 {
if v == 0x2F813 {
Some(seq!['\u{34B9}'])
} else {
None
}
} else {
if v == 0x2F814 {
Some(seq!['\u{5167}'])
} else {
None
}
}
}
} else {
if v < 0x2F817 {
if v < 0x2F816 {
if v == 0x2F815 {
Some(seq!['\u{518D}'])
} else {
None
}
} else {
if v == 0x2F816 {
Some(seq!['\u{2054B}'])
} else {
None
}
}
} else {
if v < 0x2F818 {
if v == 0x2F817 {
Some(seq!['\u{5197}'])
} else {
None
}
} else {
if v < 0x2F819 {
if v == 0x2F818 {
Some(seq!['\u{51A4}'])
} else {
None
}
} else {
if v == 0x2F819 {
Some(seq!['\u{4ECC}'])
} else {
None
}
}
}
}
}
}
}
}
}
}
}
} else {
if v < 0x2F91C {
if v < 0x2F89B {
if v < 0x2F85A {
if v < 0x2F83A {
if v < 0x2F82A {
if v < 0x2F822 {
if v < 0x2F81E {
if v < 0x2F81C {
if v < 0x2F81B {
if v == 0x2F81A {
Some(seq!['\u{51AC}'])
} else {
None
}
} else {
if v == 0x2F81B {
Some(seq!['\u{51B5}'])
} else {
None
}
}
} else {
if v < 0x2F81D {
if v == 0x2F81C {
Some(seq!['\u{291DF}'])
} else {
None
}
} else {
if v == 0x2F81D {
Some(seq!['\u{51F5}'])
} else {
None
}
}
}
} else {
if v < 0x2F820 {
if v < 0x2F81F {
if v == 0x2F81E {
Some(seq!['\u{5203}'])
} else {
None
}
} else {
if v == 0x2F81F {
Some(seq!['\u{34DF}'])
} else {
None
}
}
} else {
if v < 0x2F821 {
if v == 0x2F820 {
Some(seq!['\u{523B}'])
} else {
None
}
} else {
if v == 0x2F821 {
Some(seq!['\u{5246}'])
} else {
None
}
}
}
}
} else {
if v < 0x2F826 {
if v < 0x2F824 {
if v < 0x2F823 {
if v == 0x2F822 {
Some(seq!['\u{5272}'])
} else {
None
}
} else {
if v == 0x2F823 {
Some(seq!['\u{5277}'])
} else {
None
}
}
} else {
if v < 0x2F825 {
if v == 0x2F824 {
Some(seq!['\u{3515}'])
} else {
None
}
} else {
if v == 0x2F825 {
Some(seq!['\u{52C7}'])
} else {
None
}
}
}
} else {
if v < 0x2F828 {
if v < 0x2F827 {
if v == 0x2F826 {
Some(seq!['\u{52C9}'])
} else {
None
}
} else {
if v == 0x2F827 {
Some(seq!['\u{52E4}'])
} else {
None
}
}
} else {
if v < 0x2F829 {
if v == 0x2F828 {
Some(seq!['\u{52FA}'])
} else {
None
}
} else {
if v == 0x2F829 {
Some(seq!['\u{5305}'])
} else {
None
}
}
}
}
}
} else {
if v < 0x2F832 {
if v < 0x2F82E {
if v < 0x2F82C {
if v < 0x2F82B {
if v == 0x2F82A {
Some(seq!['\u{5306}'])
} else {
None
}
} else {
if v == 0x2F82B {
Some(seq!['\u{5317}'])
} else {
None
}
}
} else {
if v < 0x2F82D {
if v == 0x2F82C {
Some(seq!['\u{5349}'])
} else {
None
}
} else {
if v == 0x2F82D {
Some(seq!['\u{5351}'])
} else {
None
}
}
}
} else {
if v < 0x2F830 {
if v < 0x2F82F {
if v == 0x2F82E {
Some(seq!['\u{535A}'])
} else {
None
}
} else {
if v == 0x2F82F {
Some(seq!['\u{5373}'])
} else {
None
}
}
} else {
if v < 0x2F831 {
if v == 0x2F830 {
Some(seq!['\u{537D}'])
} else {
None
}
} else {
if v == 0x2F831 {
Some(seq!['\u{537F}'])
} else {
None
}
}
}
}
} else {
if v < 0x2F836 {
if v < 0x2F834 {
if v < 0x2F833 {
if v == 0x2F832 {
Some(seq!['\u{537F}'])
} else {
None
}
} else {
if v == 0x2F833 {
Some(seq!['\u{537F}'])
} else {
None
}
}
} else {
if v < 0x2F835 {
if v == 0x2F834 {
Some(seq!['\u{20A2C}'])
} else {
None
}
} else {
if v == 0x2F835 {
Some(seq!['\u{7070}'])
} else {
None
}
}
}
} else {
if v < 0x2F838 {
if v < 0x2F837 {
if v == 0x2F836 {
Some(seq!['\u{53CA}'])
} else {
None
}
} else {
if v == 0x2F837 {
Some(seq!['\u{53DF}'])
} else {
None
}
}
} else {
if v < 0x2F839 {
if v == 0x2F838 {
Some(seq!['\u{20B63}'])
} else {
None
}
} else {
if v == 0x2F839 {
Some(seq!['\u{53EB}'])
} else {
None
}
}
}
}
}
}
} else {
if v < 0x2F84A {
if v < 0x2F842 {
if v < 0x2F83E {
if v < 0x2F83C {
if v < 0x2F83B {
if v == 0x2F83A {
Some(seq!['\u{53F1}'])
} else {
None
}
} else {
if v == 0x2F83B {
Some(seq!['\u{5406}'])
} else {
None
}
}
} else {
if v < 0x2F83D {
if v == 0x2F83C {
Some(seq!['\u{549E}'])
} else {
None
}
} else {
if v == 0x2F83D {
Some(seq!['\u{5438}'])
} else {
None
}
}
}
} else {
if v < 0x2F840 {
if v < 0x2F83F {
if v == 0x2F83E {
Some(seq!['\u{5448}'])
} else {
None
}
} else {
if v == 0x2F83F {
Some(seq!['\u{5468}'])
} else {
None
}
}
} else {
if v < 0x2F841 {
if v == 0x2F840 {
Some(seq!['\u{54A2}'])
} else {
None
}
} else {
if v == 0x2F841 {
Some(seq!['\u{54F6}'])
} else {
None
}
}
}
}
} else {
if v < 0x2F846 {
if v < 0x2F844 {
if v < 0x2F843 {
if v == 0x2F842 {
Some(seq!['\u{5510}'])
} else {
None
}
} else {
if v == 0x2F843 {
Some(seq!['\u{5553}'])
} else {
None
}
}
} else {
if v < 0x2F845 {
if v == 0x2F844 {
Some(seq!['\u{5563}'])
} else {
None
}
} else {
if v == 0x2F845 {
Some(seq!['\u{5584}'])
} else {
None
}
}
}
} else {
if v < 0x2F848 {
if v < 0x2F847 {
if v == 0x2F846 {
Some(seq!['\u{5584}'])
} else {
None
}
} else {
if v == 0x2F847 {
Some(seq!['\u{5599}'])
} else {
None
}
}
} else {
if v < 0x2F849 {
if v == 0x2F848 {
Some(seq!['\u{55AB}'])
} else {
None
}
} else {
if v == 0x2F849 {
Some(seq!['\u{55B3}'])
} else {
None
}
}
}
}
}
} else {
if v < 0x2F852 {
if v < 0x2F84E {
if v < 0x2F84C {
if v < 0x2F84B {
if v == 0x2F84A {
Some(seq!['\u{55C2}'])
} else {
None
}
} else {
if v == 0x2F84B {
Some(seq!['\u{5716}'])
} else {
None
}
}
} else {
if v < 0x2F84D {
if v == 0x2F84C {
Some(seq!['\u{5606}'])
} else {
None
}
} else {
if v == 0x2F84D {
Some(seq!['\u{5717}'])
} else {
None
}
}
}
} else {
if v < 0x2F850 {
if v < 0x2F84F {
if v == 0x2F84E {
Some(seq!['\u{5651}'])
} else {
None
}
} else {
if v == 0x2F84F {
Some(seq!['\u{5674}'])
} else {
None
}
}
} else {
if v < 0x2F851 {
if v == 0x2F850 {
Some(seq!['\u{5207}'])
} else {
None
}
} else {
if v == 0x2F851 {
Some(seq!['\u{58EE}'])
} else {
None
}
}
}
}
} else {
if v < 0x2F856 {
if v < 0x2F854 {
if v < 0x2F853 {
if v == 0x2F852 {
Some(seq!['\u{57CE}'])
} else {
None
}
} else {
if v == 0x2F853 {
Some(seq!['\u{57F4}'])
} else {
None
}
}
} else {
if v < 0x2F855 {
if v == 0x2F854 {
Some(seq!['\u{580D}'])
} else {
None
}
} else {
if v == 0x2F855 {
Some(seq!['\u{578B}'])
} else {
None
}
}
}
} else {
if v < 0x2F858 {
if v < 0x2F857 {
if v == 0x2F856 {
Some(seq!['\u{5832}'])
} else {
None
}
} else {
if v == 0x2F857 {
Some(seq!['\u{5831}'])
} else {
None
}
}
} else {
if v < 0x2F859 {
if v == 0x2F858 {
Some(seq!['\u{58AC}'])
} else {
None
}
} else {
if v == 0x2F859 {
Some(seq!['\u{214E4}'])
} else {
None
}
}
}
}
}
}
}
} else {
if v < 0x2F87A {
if v < 0x2F86A {
if v < 0x2F862 {
if v < 0x2F85E {
if v < 0x2F85C {
if v < 0x2F85B {
if v == 0x2F85A {
Some(seq!['\u{58F2}'])
} else {
None
}
} else {
if v == 0x2F85B {
Some(seq!['\u{58F7}'])
} else {
None
}
}
} else {
if v < 0x2F85D {
if v == 0x2F85C {
Some(seq!['\u{5906}'])
} else {
None
}
} else {
if v == 0x2F85D {
Some(seq!['\u{591A}'])
} else {
None
}
}
}
} else {
if v < 0x2F860 {
if v < 0x2F85F {
if v == 0x2F85E {
Some(seq!['\u{5922}'])
} else {
None
}
} else {
if v == 0x2F85F {
Some(seq!['\u{5962}'])
} else {
None
}
}
} else {
if v < 0x2F861 {
if v == 0x2F860 {
Some(seq!['\u{216A8}'])
} else {
None
}
} else {
if v == 0x2F861 {
Some(seq!['\u{216EA}'])
} else {
None
}
}
}
}
} else {
if v < 0x2F866 {
if v < 0x2F864 {
if v < 0x2F863 {
if v == 0x2F862 {
Some(seq!['\u{59EC}'])
} else {
None
}
} else {
if v == 0x2F863 {
Some(seq!['\u{5A1B}'])
} else {
None
}
}
} else {
if v < 0x2F865 {
if v == 0x2F864 {
Some(seq!['\u{5A27}'])
} else {
None
}
} else {
if v == 0x2F865 {
Some(seq!['\u{59D8}'])
} else {
None
}
}
}
} else {
if v < 0x2F868 {
if v < 0x2F867 {
if v == 0x2F866 {
Some(seq!['\u{5A66}'])
} else {
None
}
} else {
if v == 0x2F867 {
Some(seq!['\u{36EE}'])
} else {
None
}
}
} else {
if v < 0x2F869 {
if v == 0x2F868 {
Some(seq!['\u{36FC}'])
} else {
None
}
} else {
if v == 0x2F869 {
Some(seq!['\u{5B08}'])
} else {
None
}
}
}
}
}
} else {
if v < 0x2F872 {
if v < 0x2F86E {
if v < 0x2F86C {
if v < 0x2F86B {
if v == 0x2F86A {
Some(seq!['\u{5B3E}'])
} else {
None
}
} else {
if v == 0x2F86B {
Some(seq!['\u{5B3E}'])
} else {
None
}
}
} else {
if v < 0x2F86D {
if v == 0x2F86C {
Some(seq!['\u{219C8}'])
} else {
None
}
} else {
if v == 0x2F86D {
Some(seq!['\u{5BC3}'])
} else {
None
}
}
}
} else {
if v < 0x2F870 {
if v < 0x2F86F {
if v == 0x2F86E {
Some(seq!['\u{5BD8}'])
} else {
None
}
} else {
if v == 0x2F86F {
Some(seq!['\u{5BE7}'])
} else {
None
}
}
} else {
if v < 0x2F871 {
if v == 0x2F870 {
Some(seq!['\u{5BF3}'])
} else {
None
}
} else {
if v == 0x2F871 {
Some(seq!['\u{21B18}'])
} else {
None
}
}
}
}
} else {
if v < 0x2F876 {
if v < 0x2F874 {
if v < 0x2F873 {
if v == 0x2F872 {
Some(seq!['\u{5BFF}'])
} else {
None
}
} else {
if v == 0x2F873 {
Some(seq!['\u{5C06}'])
} else {
None
}
}
} else {
if v < 0x2F875 {
if v == 0x2F874 {
Some(seq!['\u{5F53}'])
} else {
None
}
} else {
if v == 0x2F875 {
Some(seq!['\u{5C22}'])
} else {
None
}
}
}
} else {
if v < 0x2F878 {
if v < 0x2F877 {
if v == 0x2F876 {
Some(seq!['\u{3781}'])
} else {
None
}
} else {
if v == 0x2F877 {
Some(seq!['\u{5C60}'])
} else {
None
}
}
} else {
if v < 0x2F879 {
if v == 0x2F878 {
Some(seq!['\u{5C6E}'])
} else {
None
}
} else {
if v == 0x2F879 {
Some(seq!['\u{5CC0}'])
} else {
None
}
}
}
}
}
}
} else {
if v < 0x2F88A {
if v < 0x2F882 {
if v < 0x2F87E {
if v < 0x2F87C {
if v < 0x2F87B {
if v == 0x2F87A {
Some(seq!['\u{5C8D}'])
} else {
None
}
} else {
if v == 0x2F87B {
Some(seq!['\u{21DE4}'])
} else {
None
}
}
} else {
if v < 0x2F87D {
if v == 0x2F87C {
Some(seq!['\u{5D43}'])
} else {
None
}
} else {
if v == 0x2F87D {
Some(seq!['\u{21DE6}'])
} else {
None
}
}
}
} else {
if v < 0x2F880 {
if v < 0x2F87F {
if v == 0x2F87E {
Some(seq!['\u{5D6E}'])
} else {
None
}
} else {
if v == 0x2F87F {
Some(seq!['\u{5D6B}'])
} else {
None
}
}
} else {
if v < 0x2F881 {
if v == 0x2F880 {
Some(seq!['\u{5D7C}'])
} else {
None
}
} else {
if v == 0x2F881 {
Some(seq!['\u{5DE1}'])
} else {
None
}
}
}
}
} else {
if v < 0x2F886 {
if v < 0x2F884 {
if v < 0x2F883 {
if v == 0x2F882 {
Some(seq!['\u{5DE2}'])
} else {
None
}
} else {
if v == 0x2F883 {
Some(seq!['\u{382F}'])
} else {
None
}
}
} else {
if v < 0x2F885 {
if v == 0x2F884 {
Some(seq!['\u{5DFD}'])
} else {
None
}
} else {
if v == 0x2F885 {
Some(seq!['\u{5E28}'])
} else {
None
}
}
}
} else {
if v < 0x2F888 {
if v < 0x2F887 {
if v == 0x2F886 {
Some(seq!['\u{5E3D}'])
} else {
None
}
} else {
if v == 0x2F887 {
Some(seq!['\u{5E69}'])
} else {
None
}
}
} else {
if v < 0x2F889 {
if v == 0x2F888 {
Some(seq!['\u{3862}'])
} else {
None
}
} else {
if v == 0x2F889 {
Some(seq!['\u{22183}'])
} else {
None
}
}
}
}
}
} else {
if v < 0x2F892 {
if v < 0x2F88E {
if v < 0x2F88C {
if v < 0x2F88B {
if v == 0x2F88A {
Some(seq!['\u{387C}'])
} else {
None
}
} else {
if v == 0x2F88B {
Some(seq!['\u{5EB0}'])
} else {
None
}
}
} else {
if v < 0x2F88D {
if v == 0x2F88C {
Some(seq!['\u{5EB3}'])
} else {
None
}
} else {
if v == 0x2F88D {
Some(seq!['\u{5EB6}'])
} else {
None
}
}
}
} else {
if v < 0x2F890 {
if v < 0x2F88F {
if v == 0x2F88E {
Some(seq!['\u{5ECA}'])
} else {
None
}
} else {
if v == 0x2F88F {
Some(seq!['\u{2A392}'])
} else {
None
}
}
} else {
if v < 0x2F891 {
if v == 0x2F890 {
Some(seq!['\u{5EFE}'])
} else {
None
}
} else {
if v == 0x2F891 {
Some(seq!['\u{22331}'])
} else {
None
}
}
}
}
} else {
if v < 0x2F896 {
if v < 0x2F894 {
if v < 0x2F893 {
if v == 0x2F892 {
Some(seq!['\u{22331}'])
} else {
None
}
} else {
if v == 0x2F893 {
Some(seq!['\u{8201}'])
} else {
None
}
}
} else {
if v < 0x2F895 {
if v == 0x2F894 {
Some(seq!['\u{5F22}'])
} else {
None
}
} else {
if v == 0x2F895 {
Some(seq!['\u{5F22}'])
} else {
None
}
}
}
} else {
if v < 0x2F898 {
if v < 0x2F897 {
if v == 0x2F896 {
Some(seq!['\u{38C7}'])
} else {
None
}
} else {
if v == 0x2F897 {
Some(seq!['\u{232B8}'])
} else {
None
}
}
} else {
if v < 0x2F899 {
if v == 0x2F898 {
Some(seq!['\u{261DA}'])
} else {
None
}
} else {
if v < 0x2F89A {
if v == 0x2F899 {
Some(seq!['\u{5F62}'])
} else {
None
}
} else {
if v == 0x2F89A {
Some(seq!['\u{5F6B}'])
} else {
None
}
}
}
}
}
}
}
}
}
} else {
if v < 0x2F8DB {
if v < 0x2F8BB {
if v < 0x2F8AB {
if v < 0x2F8A3 {
if v < 0x2F89F {
if v < 0x2F89D {
if v < 0x2F89C {
if v == 0x2F89B {
Some(seq!['\u{38E3}'])
} else {
None
}
} else {
if v == 0x2F89C {
Some(seq!['\u{5F9A}'])
} else {
None
}
}
} else {
if v < 0x2F89E {
if v == 0x2F89D {
Some(seq!['\u{5FCD}'])
} else {
None
}
} else {
if v == 0x2F89E {
Some(seq!['\u{5FD7}'])
} else {
None
}
}
}
} else {
if v < 0x2F8A1 {
if v < 0x2F8A0 {
if v == 0x2F89F {
Some(seq!['\u{5FF9}'])
} else {
None
}
} else {
if v == 0x2F8A0 {
Some(seq!['\u{6081}'])
} else {
None
}
}
} else {
if v < 0x2F8A2 {
if v == 0x2F8A1 {
Some(seq!['\u{393A}'])
} else {
None
}
} else {
if v == 0x2F8A2 {
Some(seq!['\u{391C}'])
} else {
None
}
}
}
}
} else {
if v < 0x2F8A7 {
if v < 0x2F8A5 {
if v < 0x2F8A4 {
if v == 0x2F8A3 {
Some(seq!['\u{6094}'])
} else {
None
}
} else {
if v == 0x2F8A4 {
Some(seq!['\u{226D4}'])
} else {
None
}
}
} else {
if v < 0x2F8A6 {
if v == 0x2F8A5 {
Some(seq!['\u{60C7}'])
} else {
None
}
} else {
if v == 0x2F8A6 {
Some(seq!['\u{6148}'])
} else {
None
}
}
}
} else {
if v < 0x2F8A9 {
if v < 0x2F8A8 {
if v == 0x2F8A7 {
Some(seq!['\u{614C}'])
} else {
None
}
} else {
if v == 0x2F8A8 {
Some(seq!['\u{614E}'])
} else {
None
}
}
} else {
if v < 0x2F8AA {
if v == 0x2F8A9 {
Some(seq!['\u{614C}'])
} else {
None
}
} else {
if v == 0x2F8AA {
Some(seq!['\u{617A}'])
} else {
None
}
}
}
}
}
} else {
if v < 0x2F8B3 {
if v < 0x2F8AF {
if v < 0x2F8AD {
if v < 0x2F8AC {
if v == 0x2F8AB {
Some(seq!['\u{618E}'])
} else {
None
}
} else {
if v == 0x2F8AC {
Some(seq!['\u{61B2}'])
} else {
None
}
}
} else {
if v < 0x2F8AE {
if v == 0x2F8AD {
Some(seq!['\u{61A4}'])
} else {
None
}
} else {
if v == 0x2F8AE {
Some(seq!['\u{61AF}'])
} else {
None
}
}
}
} else {
if v < 0x2F8B1 {
if v < 0x2F8B0 {
if v == 0x2F8AF {
Some(seq!['\u{61DE}'])
} else {
None
}
} else {
if v == 0x2F8B0 {
Some(seq!['\u{61F2}'])
} else {
None
}
}
} else {
if v < 0x2F8B2 {
if v == 0x2F8B1 {
Some(seq!['\u{61F6}'])
} else {
None
}
} else {
if v == 0x2F8B2 {
Some(seq!['\u{6210}'])
} else {
None
}
}
}
}
} else {
if v < 0x2F8B7 {
if v < 0x2F8B5 {
if v < 0x2F8B4 {
if v == 0x2F8B3 {
Some(seq!['\u{621B}'])
} else {
None
}
} else {
if v == 0x2F8B4 {
Some(seq!['\u{625D}'])
} else {
None
}
}
} else {
if v < 0x2F8B6 {
if v == 0x2F8B5 {
Some(seq!['\u{62B1}'])
} else {
None
}
} else {
if v == 0x2F8B6 {
Some(seq!['\u{62D4}'])
} else {
None
}
}
}
} else {
if v < 0x2F8B9 {
if v < 0x2F8B8 {
if v == 0x2F8B7 {
Some(seq!['\u{6350}'])
} else {
None
}
} else {
if v == 0x2F8B8 {
Some(seq!['\u{22B0C}'])
} else {
None
}
}
} else {
if v < 0x2F8BA {
if v == 0x2F8B9 {
Some(seq!['\u{633D}'])
} else {
None
}
} else {
if v == 0x2F8BA {
Some(seq!['\u{62FC}'])
} else {
None
}
}
}
}
}
}
} else {
if v < 0x2F8CB {
if v < 0x2F8C3 {
if v < 0x2F8BF {
if v < 0x2F8BD {
if v < 0x2F8BC {
if v == 0x2F8BB {
Some(seq!['\u{6368}'])
} else {
None
}
} else {
if v == 0x2F8BC {
Some(seq!['\u{6383}'])
} else {
None
}
}
} else {
if v < 0x2F8BE {
if v == 0x2F8BD {
Some(seq!['\u{63E4}'])
} else {
None
}
} else {
if v == 0x2F8BE {
Some(seq!['\u{22BF1}'])
} else {
None
}
}
}
} else {
if v < 0x2F8C1 {
if v < 0x2F8C0 {
if v == 0x2F8BF {
Some(seq!['\u{6422}'])
} else {
None
}
} else {
if v == 0x2F8C0 {
Some(seq!['\u{63C5}'])
} else {
None
}
}
} else {
if v < 0x2F8C2 {
if v == 0x2F8C1 {
Some(seq!['\u{63A9}'])
} else {
None
}
} else {
if v == 0x2F8C2 {
Some(seq!['\u{3A2E}'])
} else {
None
}
}
}
}
} else {
if v < 0x2F8C7 {
if v < 0x2F8C5 {
if v < 0x2F8C4 {
if v == 0x2F8C3 {
Some(seq!['\u{6469}'])
} else {
None
}
} else {
if v == 0x2F8C4 {
Some(seq!['\u{647E}'])
} else {
None
}
}
} else {
if v < 0x2F8C6 {
if v == 0x2F8C5 {
Some(seq!['\u{649D}'])
} else {
None
}
} else {
if v == 0x2F8C6 {
Some(seq!['\u{6477}'])
} else {
None
}
}
}
} else {
if v < 0x2F8C9 {
if v < 0x2F8C8 {
if v == 0x2F8C7 {
Some(seq!['\u{3A6C}'])
} else {
None
}
} else {
if v == 0x2F8C8 {
Some(seq!['\u{654F}'])
} else {
None
}
}
} else {
if v < 0x2F8CA {
if v == 0x2F8C9 {
Some(seq!['\u{656C}'])
} else {
None
}
} else {
if v == 0x2F8CA {
Some(seq!['\u{2300A}'])
} else {
None
}
}
}
}
}
} else {
if v < 0x2F8D3 {
if v < 0x2F8CF {
if v < 0x2F8CD {
if v < 0x2F8CC {
if v == 0x2F8CB {
Some(seq!['\u{65E3}'])
} else {
None
}
} else {
if v == 0x2F8CC {
Some(seq!['\u{66F8}'])
} else {
None
}
}
} else {
if v < 0x2F8CE {
if v == 0x2F8CD {
Some(seq!['\u{6649}'])
} else {
None
}
} else {
if v == 0x2F8CE {
Some(seq!['\u{3B19}'])
} else {
None
}
}
}
} else {
if v < 0x2F8D1 {
if v < 0x2F8D0 {
if v == 0x2F8CF {
Some(seq!['\u{6691}'])
} else {
None
}
} else {
if v == 0x2F8D0 {
Some(seq!['\u{3B08}'])
} else {
None
}
}
} else {
if v < 0x2F8D2 {
if v == 0x2F8D1 {
Some(seq!['\u{3AE4}'])
} else {
None
}
} else {
if v == 0x2F8D2 {
Some(seq!['\u{5192}'])
} else {
None
}
}
}
}
} else {
if v < 0x2F8D7 {
if v < 0x2F8D5 {
if v < 0x2F8D4 {
if v == 0x2F8D3 {
Some(seq!['\u{5195}'])
} else {
None
}
} else {
if v == 0x2F8D4 {
Some(seq!['\u{6700}'])
} else {
None
}
}
} else {
if v < 0x2F8D6 {
if v == 0x2F8D5 {
Some(seq!['\u{669C}'])
} else {
None
}
} else {
if v == 0x2F8D6 {
Some(seq!['\u{80AD}'])
} else {
None
}
}
}
} else {
if v < 0x2F8D9 {
if v < 0x2F8D8 {
if v == 0x2F8D7 {
Some(seq!['\u{43D9}'])
} else {
None
}
} else {
if v == 0x2F8D8 {
Some(seq!['\u{6717}'])
} else {
None
}
}
} else {
if v < 0x2F8DA {
if v == 0x2F8D9 {
Some(seq!['\u{671B}'])
} else {
None
}
} else {
if v == 0x2F8DA {
Some(seq!['\u{6721}'])
} else {
None
}
}
}
}
}
}
}
} else {
if v < 0x2F8FB {
if v < 0x2F8EB {
if v < 0x2F8E3 {
if v < 0x2F8DF {
if v < 0x2F8DD {
if v < 0x2F8DC {
if v == 0x2F8DB {
Some(seq!['\u{675E}'])
} else {
None
}
} else {
if v == 0x2F8DC {
Some(seq!['\u{6753}'])
} else {
None
}
}
} else {
if v < 0x2F8DE {
if v == 0x2F8DD {
Some(seq!['\u{233C3}'])
} else {
None
}
} else {
if v == 0x2F8DE {
Some(seq!['\u{3B49}'])
} else {
None
}
}
}
} else {
if v < 0x2F8E1 {
if v < 0x2F8E0 {
if v == 0x2F8DF {
Some(seq!['\u{67FA}'])
} else {
None
}
} else {
if v == 0x2F8E0 {
Some(seq!['\u{6785}'])
} else {
None
}
}
} else {
if v < 0x2F8E2 {
if v == 0x2F8E1 {
Some(seq!['\u{6852}'])
} else {
None
}
} else {
if v == 0x2F8E2 {
Some(seq!['\u{6885}'])
} else {
None
}
}
}
}
} else {
if v < 0x2F8E7 {
if v < 0x2F8E5 {
if v < 0x2F8E4 {
if v == 0x2F8E3 {
Some(seq!['\u{2346D}'])
} else {
None
}
} else {
if v == 0x2F8E4 {
Some(seq!['\u{688E}'])
} else {
None
}
}
} else {
if v < 0x2F8E6 {
if v == 0x2F8E5 {
Some(seq!['\u{681F}'])
} else {
None
}
} else {
if v == 0x2F8E6 {
Some(seq!['\u{6914}'])
} else {
None
}
}
}
} else {
if v < 0x2F8E9 {
if v < 0x2F8E8 {
if v == 0x2F8E7 {
Some(seq!['\u{3B9D}'])
} else {
None
}
} else {
if v == 0x2F8E8 {
Some(seq!['\u{6942}'])
} else {
None
}
}
} else {
if v < 0x2F8EA {
if v == 0x2F8E9 {
Some(seq!['\u{69A3}'])
} else {
None
}
} else {
if v == 0x2F8EA {
Some(seq!['\u{69EA}'])
} else {
None
}
}
}
}
}
} else {
if v < 0x2F8F3 {
if v < 0x2F8EF {
if v < 0x2F8ED {
if v < 0x2F8EC {
if v == 0x2F8EB {
Some(seq!['\u{6AA8}'])
} else {
None
}
} else {
if v == 0x2F8EC {
Some(seq!['\u{236A3}'])
} else {
None
}
}
} else {
if v < 0x2F8EE {
if v == 0x2F8ED {
Some(seq!['\u{6ADB}'])
} else {
None
}
} else {
if v == 0x2F8EE {
Some(seq!['\u{3C18}'])
} else {
None
}
}
}
} else {
if v < 0x2F8F1 {
if v < 0x2F8F0 {
if v == 0x2F8EF {
Some(seq!['\u{6B21}'])
} else {
None
}
} else {
if v == 0x2F8F0 {
Some(seq!['\u{238A7}'])
} else {
None
}
}
} else {
if v < 0x2F8F2 {
if v == 0x2F8F1 {
Some(seq!['\u{6B54}'])
} else {
None
}
} else {
if v == 0x2F8F2 {
Some(seq!['\u{3C4E}'])
} else {
None
}
}
}
}
} else {
if v < 0x2F8F7 {
if v < 0x2F8F5 {
if v < 0x2F8F4 {
if v == 0x2F8F3 {
Some(seq!['\u{6B72}'])
} else {
None
}
} else {
if v == 0x2F8F4 {
Some(seq!['\u{6B9F}'])
} else {
None
}
}
} else {
if v < 0x2F8F6 {
if v == 0x2F8F5 {
Some(seq!['\u{6BBA}'])
} else {
None
}
} else {
if v == 0x2F8F6 {
Some(seq!['\u{6BBB}'])
} else {
None
}
}
}
} else {
if v < 0x2F8F9 {
if v < 0x2F8F8 {
if v == 0x2F8F7 {
Some(seq!['\u{23A8D}'])
} else {
None
}
} else {
if v == 0x2F8F8 {
Some(seq!['\u{21D0B}'])
} else {
None
}
}
} else {
if v < 0x2F8FA {
if v == 0x2F8F9 {
Some(seq!['\u{23AFA}'])
} else {
None
}
} else {
if v == 0x2F8FA {
Some(seq!['\u{6C4E}'])
} else {
None
}
}
}
}
}
}
} else {
if v < 0x2F90B {
if v < 0x2F903 {
if v < 0x2F8FF {
if v < 0x2F8FD {
if v < 0x2F8FC {
if v == 0x2F8FB {
Some(seq!['\u{23CBC}'])
} else {
None
}
} else {
if v == 0x2F8FC {
Some(seq!['\u{6CBF}'])
} else {
None
}
}
} else {
if v < 0x2F8FE {
if v == 0x2F8FD {
Some(seq!['\u{6CCD}'])
} else {
None
}
} else {
if v == 0x2F8FE {
Some(seq!['\u{6C67}'])
} else {
None
}
}
}
} else {
if v < 0x2F901 {
if v < 0x2F900 {
if v == 0x2F8FF {
Some(seq!['\u{6D16}'])
} else {
None
}
} else {
if v == 0x2F900 {
Some(seq!['\u{6D3E}'])
} else {
None
}
}
} else {
if v < 0x2F902 {
if v == 0x2F901 {
Some(seq!['\u{6D77}'])
} else {
None
}
} else {
if v == 0x2F902 {
Some(seq!['\u{6D41}'])
} else {
None
}
}
}
}
} else {
if v < 0x2F907 {
if v < 0x2F905 {
if v < 0x2F904 {
if v == 0x2F903 {
Some(seq!['\u{6D69}'])
} else {
None
}
} else {
if v == 0x2F904 {
Some(seq!['\u{6D78}'])
} else {
None
}
}
} else {
if v < 0x2F906 {
if v == 0x2F905 {
Some(seq!['\u{6D85}'])
} else {
None
}
} else {
if v == 0x2F906 {
Some(seq!['\u{23D1E}'])
} else {
None
}
}
}
} else {
if v < 0x2F909 {
if v < 0x2F908 {
if v == 0x2F907 {
Some(seq!['\u{6D34}'])
} else {
None
}
} else {
if v == 0x2F908 {
Some(seq!['\u{6E2F}'])
} else {
None
}
}
} else {
if v < 0x2F90A {
if v == 0x2F909 {
Some(seq!['\u{6E6E}'])
} else {
None
}
} else {
if v == 0x2F90A {
Some(seq!['\u{3D33}'])
} else {
None
}
}
}
}
}
} else {
if v < 0x2F913 {
if v < 0x2F90F {
if v < 0x2F90D {
if v < 0x2F90C {
if v == 0x2F90B {
Some(seq!['\u{6ECB}'])
} else {
None
}
} else {
if v == 0x2F90C {
Some(seq!['\u{6EC7}'])
} else {
None
}
}
} else {
if v < 0x2F90E {
if v == 0x2F90D {
Some(seq!['\u{23ED1}'])
} else {
None
}
} else {
if v == 0x2F90E {
Some(seq!['\u{6DF9}'])
} else {
None
}
}
}
} else {
if v < 0x2F911 {
if v < 0x2F910 {
if v == 0x2F90F {
Some(seq!['\u{6F6E}'])
} else {
None
}
} else {
if v == 0x2F910 {
Some(seq!['\u{23F5E}'])
} else {
None
}
}
} else {
if v < 0x2F912 {
if v == 0x2F911 {
Some(seq!['\u{23F8E}'])
} else {
None
}
} else {
if v == 0x2F912 {
Some(seq!['\u{6FC6}'])
} else {
None
}
}
}
}
} else {
if v < 0x2F917 {
if v < 0x2F915 {
if v < 0x2F914 {
if v == 0x2F913 {
Some(seq!['\u{7039}'])
} else {
None
}
} else {
if v == 0x2F914 {
Some(seq!['\u{701E}'])
} else {
None
}
}
} else {
if v < 0x2F916 {
if v == 0x2F915 {
Some(seq!['\u{701B}'])
} else {
None
}
} else {
if v == 0x2F916 {
Some(seq!['\u{3D96}'])
} else {
None
}
}
}
} else {
if v < 0x2F919 {
if v < 0x2F918 {
if v == 0x2F917 {
Some(seq!['\u{704A}'])
} else {
None
}
} else {
if v == 0x2F918 {
Some(seq!['\u{707D}'])
} else {
None
}
}
} else {
if v < 0x2F91A {
if v == 0x2F919 {
Some(seq!['\u{7077}'])
} else {
None
}
} else {
if v < 0x2F91B {
if v == 0x2F91A {
Some(seq!['\u{70AD}'])
} else {
None
}
} else {
if v == 0x2F91B {
Some(seq!['\u{20525}'])
} else {
None
}
}
}
}
}
}
}
}
}
}
} else {
if v < 0x2F99D {
if v < 0x2F95C {
if v < 0x2F93C {
if v < 0x2F92C {
if v < 0x2F924 {
if v < 0x2F920 {
if v < 0x2F91E {
if v < 0x2F91D {
if v == 0x2F91C {
Some(seq!['\u{7145}'])
} else {
None
}
} else {
if v == 0x2F91D {
Some(seq!['\u{24263}'])
} else {
None
}
}
} else {
if v < 0x2F91F {
if v == 0x2F91E {
Some(seq!['\u{719C}'])
} else {
None
}
} else {
if v == 0x2F91F {
Some(seq!['\u{243AB}'])
} else {
None
}
}
}
} else {
if v < 0x2F922 {
if v < 0x2F921 {
if v == 0x2F920 {
Some(seq!['\u{7228}'])
} else {
None
}
} else {
if v == 0x2F921 {
Some(seq!['\u{7235}'])
} else {
None
}
}
} else {
if v < 0x2F923 {
if v == 0x2F922 {
Some(seq!['\u{7250}'])
} else {
None
}
} else {
if v == 0x2F923 {
Some(seq!['\u{24608}'])
} else {
None
}
}
}
}
} else {
if v < 0x2F928 {
if v < 0x2F926 {
if v < 0x2F925 {
if v == 0x2F924 {
Some(seq!['\u{7280}'])
} else {
None
}
} else {
if v == 0x2F925 {
Some(seq!['\u{7295}'])
} else {
None
}
}
} else {
if v < 0x2F927 {
if v == 0x2F926 {
Some(seq!['\u{24735}'])
} else {
None
}
} else {
if v == 0x2F927 {
Some(seq!['\u{24814}'])
} else {
None
}
}
}
} else {
if v < 0x2F92A {
if v < 0x2F929 {
if v == 0x2F928 {
Some(seq!['\u{737A}'])
} else {
None
}
} else {
if v == 0x2F929 {
Some(seq!['\u{738B}'])
} else {
None
}
}
} else {
if v < 0x2F92B {
if v == 0x2F92A {
Some(seq!['\u{3EAC}'])
} else {
None
}
} else {
if v == 0x2F92B {
Some(seq!['\u{73A5}'])
} else {
None
}
}
}
}
}
} else {
if v < 0x2F934 {
if v < 0x2F930 {
if v < 0x2F92E {
if v < 0x2F92D {
if v == 0x2F92C {
Some(seq!['\u{3EB8}'])
} else {
None
}
} else {
if v == 0x2F92D {
Some(seq!['\u{3EB8}'])
} else {
None
}
}
} else {
if v < 0x2F92F {
if v == 0x2F92E {
Some(seq!['\u{7447}'])
} else {
None
}
} else {
if v == 0x2F92F {
Some(seq!['\u{745C}'])
} else {
None
}
}
}
} else {
if v < 0x2F932 {
if v < 0x2F931 {
if v == 0x2F930 {
Some(seq!['\u{7471}'])
} else {
None
}
} else {
if v == 0x2F931 {
Some(seq!['\u{7485}'])
} else {
None
}
}
} else {
if v < 0x2F933 {
if v == 0x2F932 {
Some(seq!['\u{74CA}'])
} else {
None
}
} else {
if v == 0x2F933 {
Some(seq!['\u{3F1B}'])
} else {
None
}
}
}
}
} else {
if v < 0x2F938 {
if v < 0x2F936 {
if v < 0x2F935 {
if v == 0x2F934 {
Some(seq!['\u{7524}'])
} else {
None
}
} else {
if v == 0x2F935 {
Some(seq!['\u{24C36}'])
} else {
None
}
}
} else {
if v < 0x2F937 {
if v == 0x2F936 {
Some(seq!['\u{753E}'])
} else {
None
}
} else {
if v == 0x2F937 {
Some(seq!['\u{24C92}'])
} else {
None
}
}
}
} else {
if v < 0x2F93A {
if v < 0x2F939 {
if v == 0x2F938 {
Some(seq!['\u{7570}'])
} else {
None
}
} else {
if v == 0x2F939 {
Some(seq!['\u{2219F}'])
} else {
None
}
}
} else {
if v < 0x2F93B {
if v == 0x2F93A {
Some(seq!['\u{7610}'])
} else {
None
}
} else {
if v == 0x2F93B {
Some(seq!['\u{24FA1}'])
} else {
None
}
}
}
}
}
}
} else {
if v < 0x2F94C {
if v < 0x2F944 {
if v < 0x2F940 {
if v < 0x2F93E {
if v < 0x2F93D {
if v == 0x2F93C {
Some(seq!['\u{24FB8}'])
} else {
None
}
} else {
if v == 0x2F93D {
Some(seq!['\u{25044}'])
} else {
None
}
}
} else {
if v < 0x2F93F {
if v == 0x2F93E {
Some(seq!['\u{3FFC}'])
} else {
None
}
} else {
if v == 0x2F93F {
Some(seq!['\u{4008}'])
} else {
None
}
}
}
} else {
if v < 0x2F942 {
if v < 0x2F941 {
if v == 0x2F940 {
Some(seq!['\u{76F4}'])
} else {
None
}
} else {
if v == 0x2F941 {
Some(seq!['\u{250F3}'])
} else {
None
}
}
} else {
if v < 0x2F943 {
if v == 0x2F942 {
Some(seq!['\u{250F2}'])
} else {
None
}
} else {
if v == 0x2F943 {
Some(seq!['\u{25119}'])
} else {
None
}
}
}
}
} else {
if v < 0x2F948 {
if v < 0x2F946 {
if v < 0x2F945 {
if v == 0x2F944 {
Some(seq!['\u{25133}'])
} else {
None
}
} else {
if v == 0x2F945 {
Some(seq!['\u{771E}'])
} else {
None
}
}
} else {
if v < 0x2F947 {
if v == 0x2F946 {
Some(seq!['\u{771F}'])
} else {
None
}
} else {
if v == 0x2F947 {
Some(seq!['\u{771F}'])
} else {
None
}
}
}
} else {
if v < 0x2F94A {
if v < 0x2F949 {
if v == 0x2F948 {
Some(seq!['\u{774A}'])
} else {
None
}
} else {
if v == 0x2F949 {
Some(seq!['\u{4039}'])
} else {
None
}
}
} else {
if v < 0x2F94B {
if v == 0x2F94A {
Some(seq!['\u{778B}'])
} else {
None
}
} else {
if v == 0x2F94B {
Some(seq!['\u{4046}'])
} else {
None
}
}
}
}
}
} else {
if v < 0x2F954 {
if v < 0x2F950 {
if v < 0x2F94E {
if v < 0x2F94D {
if v == 0x2F94C {
Some(seq!['\u{4096}'])
} else {
None
}
} else {
if v == 0x2F94D {
Some(seq!['\u{2541D}'])
} else {
None
}
}
} else {
if v < 0x2F94F {
if v == 0x2F94E {
Some(seq!['\u{784E}'])
} else {
None
}
} else {
if v == 0x2F94F {
Some(seq!['\u{788C}'])
} else {
None
}
}
}
} else {
if v < 0x2F952 {
if v < 0x2F951 {
if v == 0x2F950 {
Some(seq!['\u{78CC}'])
} else {
None
}
} else {
if v == 0x2F951 {
Some(seq!['\u{40E3}'])
} else {
None
}
}
} else {
if v < 0x2F953 {
if v == 0x2F952 {
Some(seq!['\u{25626}'])
} else {
None
}
} else {
if v == 0x2F953 {
Some(seq!['\u{7956}'])
} else {
None
}
}
}
}
} else {
if v < 0x2F958 {
if v < 0x2F956 {
if v < 0x2F955 {
if v == 0x2F954 {
Some(seq!['\u{2569A}'])
} else {
None
}
} else {
if v == 0x2F955 {
Some(seq!['\u{256C5}'])
} else {
None
}
}
} else {
if v < 0x2F957 {
if v == 0x2F956 {
Some(seq!['\u{798F}'])
} else {
None
}
} else {
if v == 0x2F957 {
Some(seq!['\u{79EB}'])
} else {
None
}
}
}
} else {
if v < 0x2F95A {
if v < 0x2F959 {
if v == 0x2F958 {
Some(seq!['\u{412F}'])
} else {
None
}
} else {
if v == 0x2F959 {
Some(seq!['\u{7A40}'])
} else {
None
}
}
} else {
if v < 0x2F95B {
if v == 0x2F95A {
Some(seq!['\u{7A4A}'])
} else {
None
}
} else {
if v == 0x2F95B {
Some(seq!['\u{7A4F}'])
} else {
None
}
}
}
}
}
}
}
} else {
if v < 0x2F97C {
if v < 0x2F96C {
if v < 0x2F964 {
if v < 0x2F960 {
if v < 0x2F95E {
if v < 0x2F95D {
if v == 0x2F95C {
Some(seq!['\u{2597C}'])
} else {
None
}
} else {
if v == 0x2F95D {
Some(seq!['\u{25AA7}'])
} else {
None
}
}
} else {
if v < 0x2F95F {
if v == 0x2F95E {
Some(seq!['\u{25AA7}'])
} else {
None
}
} else {
if v == 0x2F95F {
Some(seq!['\u{7AEE}'])
} else {
None
}
}
}
} else {
if v < 0x2F962 {
if v < 0x2F961 {
if v == 0x2F960 {
Some(seq!['\u{4202}'])
} else {
None
}
} else {
if v == 0x2F961 {
Some(seq!['\u{25BAB}'])
} else {
None
}
}
} else {
if v < 0x2F963 {
if v == 0x2F962 {
Some(seq!['\u{7BC6}'])
} else {
None
}
} else {
if v == 0x2F963 {
Some(seq!['\u{7BC9}'])
} else {
None
}
}
}
}
} else {
if v < 0x2F968 {
if v < 0x2F966 {
if v < 0x2F965 {
if v == 0x2F964 {
Some(seq!['\u{4227}'])
} else {
None
}
} else {
if v == 0x2F965 {
Some(seq!['\u{25C80}'])
} else {
None
}
}
} else {
if v < 0x2F967 {
if v == 0x2F966 {
Some(seq!['\u{7CD2}'])
} else {
None
}
} else {
if v == 0x2F967 {
Some(seq!['\u{42A0}'])
} else {
None
}
}
}
} else {
if v < 0x2F96A {
if v < 0x2F969 {
if v == 0x2F968 {
Some(seq!['\u{7CE8}'])
} else {
None
}
} else {
if v == 0x2F969 {
Some(seq!['\u{7CE3}'])
} else {
None
}
}
} else {
if v < 0x2F96B {
if v == 0x2F96A {
Some(seq!['\u{7D00}'])
} else {
None
}
} else {
if v == 0x2F96B {
Some(seq!['\u{25F86}'])
} else {
None
}
}
}
}
}
} else {
if v < 0x2F974 {
if v < 0x2F970 {
if v < 0x2F96E {
if v < 0x2F96D {
if v == 0x2F96C {
Some(seq!['\u{7D63}'])
} else {
None
}
} else {
if v == 0x2F96D {
Some(seq!['\u{4301}'])
} else {
None
}
}
} else {
if v < 0x2F96F {
if v == 0x2F96E {
Some(seq!['\u{7DC7}'])
} else {
None
}
} else {
if v == 0x2F96F {
Some(seq!['\u{7E02}'])
} else {
None
}
}
}
} else {
if v < 0x2F972 {
if v < 0x2F971 {
if v == 0x2F970 {
Some(seq!['\u{7E45}'])
} else {
None
}
} else {
if v == 0x2F971 {
Some(seq!['\u{4334}'])
} else {
None
}
}
} else {
if v < 0x2F973 {
if v == 0x2F972 {
Some(seq!['\u{26228}'])
} else {
None
}
} else {
if v == 0x2F973 {
Some(seq!['\u{26247}'])
} else {
None
}
}
}
}
} else {
if v < 0x2F978 {
if v < 0x2F976 {
if v < 0x2F975 {
if v == 0x2F974 {
Some(seq!['\u{4359}'])
} else {
None
}
} else {
if v == 0x2F975 {
Some(seq!['\u{262D9}'])
} else {
None
}
}
} else {
if v < 0x2F977 {
if v == 0x2F976 {
Some(seq!['\u{7F7A}'])
} else {
None
}
} else {
if v == 0x2F977 {
Some(seq!['\u{2633E}'])
} else {
None
}
}
}
} else {
if v < 0x2F97A {
if v < 0x2F979 {
if v == 0x2F978 {
Some(seq!['\u{7F95}'])
} else {
None
}
} else {
if v == 0x2F979 {
Some(seq!['\u{7FFA}'])
} else {
None
}
}
} else {
if v < 0x2F97B {
if v == 0x2F97A {
Some(seq!['\u{8005}'])
} else {
None
}
} else {
if v == 0x2F97B {
Some(seq!['\u{264DA}'])
} else {
None
}
}
}
}
}
}
} else {
if v < 0x2F98C {
if v < 0x2F984 {
if v < 0x2F980 {
if v < 0x2F97E {
if v < 0x2F97D {
if v == 0x2F97C {
Some(seq!['\u{26523}'])
} else {
None
}
} else {
if v == 0x2F97D {
Some(seq!['\u{8060}'])
} else {
None
}
}
} else {
if v < 0x2F97F {
if v == 0x2F97E {
Some(seq!['\u{265A8}'])
} else {
None
}
} else {
if v == 0x2F97F {
Some(seq!['\u{8070}'])
} else {
None
}
}
}
} else {
if v < 0x2F982 {
if v < 0x2F981 {
if v == 0x2F980 {
Some(seq!['\u{2335F}'])
} else {
None
}
} else {
if v == 0x2F981 {
Some(seq!['\u{43D5}'])
} else {
None
}
}
} else {
if v < 0x2F983 {
if v == 0x2F982 {
Some(seq!['\u{80B2}'])
} else {
None
}
} else {
if v == 0x2F983 {
Some(seq!['\u{8103}'])
} else {
None
}
}
}
}
} else {
if v < 0x2F988 {
if v < 0x2F986 {
if v < 0x2F985 {
if v == 0x2F984 {
Some(seq!['\u{440B}'])
} else {
None
}
} else {
if v == 0x2F985 {
Some(seq!['\u{813E}'])
} else {
None
}
}
} else {
if v < 0x2F987 {
if v == 0x2F986 {
Some(seq!['\u{5AB5}'])
} else {
None
}
} else {
if v == 0x2F987 {
Some(seq!['\u{267A7}'])
} else {
None
}
}
}
} else {
if v < 0x2F98A {
if v < 0x2F989 {
if v == 0x2F988 {
Some(seq!['\u{267B5}'])
} else {
None
}
} else {
if v == 0x2F989 {
Some(seq!['\u{23393}'])
} else {
None
}
}
} else {
if v < 0x2F98B {
if v == 0x2F98A {
Some(seq!['\u{2339C}'])
} else {
None
}
} else {
if v == 0x2F98B {
Some(seq!['\u{8201}'])
} else {
None
}
}
}
}
}
} else {
if v < 0x2F994 {
if v < 0x2F990 {
if v < 0x2F98E {
if v < 0x2F98D {
if v == 0x2F98C {
Some(seq!['\u{8204}'])
} else {
None
}
} else {
if v == 0x2F98D {
Some(seq!['\u{8F9E}'])
} else {
None
}
}
} else {
if v < 0x2F98F {
if v == 0x2F98E {
Some(seq!['\u{446B}'])
} else {
None
}
} else {
if v == 0x2F98F {
Some(seq!['\u{8291}'])
} else {
None
}
}
}
} else {
if v < 0x2F992 {
if v < 0x2F991 {
if v == 0x2F990 {
Some(seq!['\u{828B}'])
} else {
None
}
} else {
if v == 0x2F991 {
Some(seq!['\u{829D}'])
} else {
None
}
}
} else {
if v < 0x2F993 {
if v == 0x2F992 {
Some(seq!['\u{52B3}'])
} else {
None
}
} else {
if v == 0x2F993 {
Some(seq!['\u{82B1}'])
} else {
None
}
}
}
}
} else {
if v < 0x2F998 {
if v < 0x2F996 {
if v < 0x2F995 {
if v == 0x2F994 {
Some(seq!['\u{82B3}'])
} else {
None
}
} else {
if v == 0x2F995 {
Some(seq!['\u{82BD}'])
} else {
None
}
}
} else {
if v < 0x2F997 {
if v == 0x2F996 {
Some(seq!['\u{82E6}'])
} else {
None
}
} else {
if v == 0x2F997 {
Some(seq!['\u{26B3C}'])
} else {
None
}
}
}
} else {
if v < 0x2F99A {
if v < 0x2F999 {
if v == 0x2F998 {
Some(seq!['\u{82E5}'])
} else {
None
}
} else {
if v == 0x2F999 {
Some(seq!['\u{831D}'])
} else {
None
}
}
} else {
if v < 0x2F99B {
if v == 0x2F99A {
Some(seq!['\u{8363}'])
} else {
None
}
} else {
if v < 0x2F99C {
if v == 0x2F99B {
Some(seq!['\u{83AD}'])
} else {
None
}
} else {
if v == 0x2F99C {
Some(seq!['\u{8323}'])
} else {
None
}
}
}
}
}
}
}
}
}
} else {
if v < 0x2F9DD {
if v < 0x2F9BD {
if v < 0x2F9AD {
if v < 0x2F9A5 {
if v < 0x2F9A1 {
if v < 0x2F99F {
if v < 0x2F99E {
if v == 0x2F99D {
Some(seq!['\u{83BD}'])
} else {
None
}
} else {
if v == 0x2F99E {
Some(seq!['\u{83E7}'])
} else {
None
}
}
} else {
if v < 0x2F9A0 {
if v == 0x2F99F {
Some(seq!['\u{8457}'])
} else {
None
}
} else {
if v == 0x2F9A0 {
Some(seq!['\u{8353}'])
} else {
None
}
}
}
} else {
if v < 0x2F9A3 {
if v < 0x2F9A2 {
if v == 0x2F9A1 {
Some(seq!['\u{83CA}'])
} else {
None
}
} else {
if v == 0x2F9A2 {
Some(seq!['\u{83CC}'])
} else {
None
}
}
} else {
if v < 0x2F9A4 {
if v == 0x2F9A3 {
Some(seq!['\u{83DC}'])
} else {
None
}
} else {
if v == 0x2F9A4 {
Some(seq!['\u{26C36}'])
} else {
None
}
}
}
}
} else {
if v < 0x2F9A9 {
if v < 0x2F9A7 {
if v < 0x2F9A6 {
if v == 0x2F9A5 {
Some(seq!['\u{26D6B}'])
} else {
None
}
} else {
if v == 0x2F9A6 {
Some(seq!['\u{26CD5}'])
} else {
None
}
}
} else {
if v < 0x2F9A8 {
if v == 0x2F9A7 {
Some(seq!['\u{452B}'])
} else {
None
}
} else {
if v == 0x2F9A8 {
Some(seq!['\u{84F1}'])
} else {
None
}
}
}
} else {
if v < 0x2F9AB {
if v < 0x2F9AA {
if v == 0x2F9A9 {
Some(seq!['\u{84F3}'])
} else {
None
}
} else {
if v == 0x2F9AA {
Some(seq!['\u{8516}'])
} else {
None
}
}
} else {
if v < 0x2F9AC {
if v == 0x2F9AB {
Some(seq!['\u{273CA}'])
} else {
None
}
} else {
if v == 0x2F9AC {
Some(seq!['\u{8564}'])
} else {
None
}
}
}
}
}
} else {
if v < 0x2F9B5 {
if v < 0x2F9B1 {
if v < 0x2F9AF {
if v < 0x2F9AE {
if v == 0x2F9AD {
Some(seq!['\u{26F2C}'])
} else {
None
}
} else {
if v == 0x2F9AE {
Some(seq!['\u{455D}'])
} else {
None
}
}
} else {
if v < 0x2F9B0 {
if v == 0x2F9AF {
Some(seq!['\u{4561}'])
} else {
None
}
} else {
if v == 0x2F9B0 {
Some(seq!['\u{26FB1}'])
} else {
None
}
}
}
} else {
if v < 0x2F9B3 {
if v < 0x2F9B2 {
if v == 0x2F9B1 {
Some(seq!['\u{270D2}'])
} else {
None
}
} else {
if v == 0x2F9B2 {
Some(seq!['\u{456B}'])
} else {
None
}
}
} else {
if v < 0x2F9B4 {
if v == 0x2F9B3 {
Some(seq!['\u{8650}'])
} else {
None
}
} else {
if v == 0x2F9B4 {
Some(seq!['\u{865C}'])
} else {
None
}
}
}
}
} else {
if v < 0x2F9B9 {
if v < 0x2F9B7 {
if v < 0x2F9B6 {
if v == 0x2F9B5 {
Some(seq!['\u{8667}'])
} else {
None
}
} else {
if v == 0x2F9B6 {
Some(seq!['\u{8669}'])
} else {
None
}
}
} else {
if v < 0x2F9B8 {
if v == 0x2F9B7 {
Some(seq!['\u{86A9}'])
} else {
None
}
} else {
if v == 0x2F9B8 {
Some(seq!['\u{8688}'])
} else {
None
}
}
}
} else {
if v < 0x2F9BB {
if v < 0x2F9BA {
if v == 0x2F9B9 {
Some(seq!['\u{870E}'])
} else {
None
}
} else {
if v == 0x2F9BA {
Some(seq!['\u{86E2}'])
} else {
None
}
}
} else {
if v < 0x2F9BC {
if v == 0x2F9BB {
Some(seq!['\u{8779}'])
} else {
None
}
} else {
if v == 0x2F9BC {
Some(seq!['\u{8728}'])
} else {
None
}
}
}
}
}
}
} else {
if v < 0x2F9CD {
if v < 0x2F9C5 {
if v < 0x2F9C1 {
if v < 0x2F9BF {
if v < 0x2F9BE {
if v == 0x2F9BD {
Some(seq!['\u{876B}'])
} else {
None
}
} else {
if v == 0x2F9BE {
Some(seq!['\u{8786}'])
} else {
None
}
}
} else {
if v < 0x2F9C0 {
if v == 0x2F9BF {
Some(seq!['\u{45D7}'])
} else {
None
}
} else {
if v == 0x2F9C0 {
Some(seq!['\u{87E1}'])
} else {
None
}
}
}
} else {
if v < 0x2F9C3 {
if v < 0x2F9C2 {
if v == 0x2F9C1 {
Some(seq!['\u{8801}'])
} else {
None
}
} else {
if v == 0x2F9C2 {
Some(seq!['\u{45F9}'])
} else {
None
}
}
} else {
if v < 0x2F9C4 {
if v == 0x2F9C3 {
Some(seq!['\u{8860}'])
} else {
None
}
} else {
if v == 0x2F9C4 {
Some(seq!['\u{8863}'])
} else {
None
}
}
}
}
} else {
if v < 0x2F9C9 {
if v < 0x2F9C7 {
if v < 0x2F9C6 {
if v == 0x2F9C5 {
Some(seq!['\u{27667}'])
} else {
None
}
} else {
if v == 0x2F9C6 {
Some(seq!['\u{88D7}'])
} else {
None
}
}
} else {
if v < 0x2F9C8 {
if v == 0x2F9C7 {
Some(seq!['\u{88DE}'])
} else {
None
}
} else {
if v == 0x2F9C8 {
Some(seq!['\u{4635}'])
} else {
None
}
}
}
} else {
if v < 0x2F9CB {
if v < 0x2F9CA {
if v == 0x2F9C9 {
Some(seq!['\u{88FA}'])
} else {
None
}
} else {
if v == 0x2F9CA {
Some(seq!['\u{34BB}'])
} else {
None
}
}
} else {
if v < 0x2F9CC {
if v == 0x2F9CB {
Some(seq!['\u{278AE}'])
} else {
None
}
} else {
if v == 0x2F9CC {
Some(seq!['\u{27966}'])
} else {
None
}
}
}
}
}
} else {
if v < 0x2F9D5 {
if v < 0x2F9D1 {
if v < 0x2F9CF {
if v < 0x2F9CE {
if v == 0x2F9CD {
Some(seq!['\u{46BE}'])
} else {
None
}
} else {
if v == 0x2F9CE {
Some(seq!['\u{46C7}'])
} else {
None
}
}
} else {
if v < 0x2F9D0 {
if v == 0x2F9CF {
Some(seq!['\u{8AA0}'])
} else {
None
}
} else {
if v == 0x2F9D0 {
Some(seq!['\u{8AED}'])
} else {
None
}
}
}
} else {
if v < 0x2F9D3 {
if v < 0x2F9D2 {
if v == 0x2F9D1 {
Some(seq!['\u{8B8A}'])
} else {
None
}
} else {
if v == 0x2F9D2 {
Some(seq!['\u{8C55}'])
} else {
None
}
}
} else {
if v < 0x2F9D4 {
if v == 0x2F9D3 {
Some(seq!['\u{27CA8}'])
} else {
None
}
} else {
if v == 0x2F9D4 {
Some(seq!['\u{8CAB}'])
} else {
None
}
}
}
}
} else {
if v < 0x2F9D9 {
if v < 0x2F9D7 {
if v < 0x2F9D6 {
if v == 0x2F9D5 {
Some(seq!['\u{8CC1}'])
} else {
None
}
} else {
if v == 0x2F9D6 {
Some(seq!['\u{8D1B}'])
} else {
None
}
}
} else {
if v < 0x2F9D8 {
if v == 0x2F9D7 {
Some(seq!['\u{8D77}'])
} else {
None
}
} else {
if v == 0x2F9D8 {
Some(seq!['\u{27F2F}'])
} else {
None
}
}
}
} else {
if v < 0x2F9DB {
if v < 0x2F9DA {
if v == 0x2F9D9 {
Some(seq!['\u{20804}'])
} else {
None
}
} else {
if v == 0x2F9DA {
Some(seq!['\u{8DCB}'])
} else {
None
}
}
} else {
if v < 0x2F9DC {
if v == 0x2F9DB {
Some(seq!['\u{8DBC}'])
} else {
None
}
} else {
if v == 0x2F9DC {
Some(seq!['\u{8DF0}'])
} else {
None
}
}
}
}
}
}
}
} else {
if v < 0x2F9FD {
if v < 0x2F9ED {
if v < 0x2F9E5 {
if v < 0x2F9E1 {
if v < 0x2F9DF {
if v < 0x2F9DE {
if v == 0x2F9DD {
Some(seq!['\u{208DE}'])
} else {
None
}
} else {
if v == 0x2F9DE {
Some(seq!['\u{8ED4}'])
} else {
None
}
}
} else {
if v < 0x2F9E0 {
if v == 0x2F9DF {
Some(seq!['\u{8F38}'])
} else {
None
}
} else {
if v == 0x2F9E0 {
Some(seq!['\u{285D2}'])
} else {
None
}
}
}
} else {
if v < 0x2F9E3 {
if v < 0x2F9E2 {
if v == 0x2F9E1 {
Some(seq!['\u{285ED}'])
} else {
None
}
} else {
if v == 0x2F9E2 {
Some(seq!['\u{9094}'])
} else {
None
}
}
} else {
if v < 0x2F9E4 {
if v == 0x2F9E3 {
Some(seq!['\u{90F1}'])
} else {
None
}
} else {
if v == 0x2F9E4 {
Some(seq!['\u{9111}'])
} else {
None
}
}
}
}
} else {
if v < 0x2F9E9 {
if v < 0x2F9E7 {
if v < 0x2F9E6 {
if v == 0x2F9E5 {
Some(seq!['\u{2872E}'])
} else {
None
}
} else {
if v == 0x2F9E6 {
Some(seq!['\u{911B}'])
} else {
None
}
}
} else {
if v < 0x2F9E8 {
if v == 0x2F9E7 {
Some(seq!['\u{9238}'])
} else {
None
}
} else {
if v == 0x2F9E8 {
Some(seq!['\u{92D7}'])
} else {
None
}
}
}
} else {
if v < 0x2F9EB {
if v < 0x2F9EA {
if v == 0x2F9E9 {
Some(seq!['\u{92D8}'])
} else {
None
}
} else {
if v == 0x2F9EA {
Some(seq!['\u{927C}'])
} else {
None
}
}
} else {
if v < 0x2F9EC {
if v == 0x2F9EB {
Some(seq!['\u{93F9}'])
} else {
None
}
} else {
if v == 0x2F9EC {
Some(seq!['\u{9415}'])
} else {
None
}
}
}
}
}
} else {
if v < 0x2F9F5 {
if v < 0x2F9F1 {
if v < 0x2F9EF {
if v < 0x2F9EE {
if v == 0x2F9ED {
Some(seq!['\u{28BFA}'])
} else {
None
}
} else {
if v == 0x2F9EE {
Some(seq!['\u{958B}'])
} else {
None
}
}
} else {
if v < 0x2F9F0 {
if v == 0x2F9EF {
Some(seq!['\u{4995}'])
} else {
None
}
} else {
if v == 0x2F9F0 {
Some(seq!['\u{95B7}'])
} else {
None
}
}
}
} else {
if v < 0x2F9F3 {
if v < 0x2F9F2 {
if v == 0x2F9F1 {
Some(seq!['\u{28D77}'])
} else {
None
}
} else {
if v == 0x2F9F2 {
Some(seq!['\u{49E6}'])
} else {
None
}
}
} else {
if v < 0x2F9F4 {
if v == 0x2F9F3 {
Some(seq!['\u{96C3}'])
} else {
None
}
} else {
if v == 0x2F9F4 {
Some(seq!['\u{5DB2}'])
} else {
None
}
}
}
}
} else {
if v < 0x2F9F9 {
if v < 0x2F9F7 {
if v < 0x2F9F6 {
if v == 0x2F9F5 {
Some(seq!['\u{9723}'])
} else {
None
}
} else {
if v == 0x2F9F6 {
Some(seq!['\u{29145}'])
} else {
None
}
}
} else {
if v < 0x2F9F8 {
if v == 0x2F9F7 {
Some(seq!['\u{2921A}'])
} else {
None
}
} else {
if v == 0x2F9F8 {
Some(seq!['\u{4A6E}'])
} else {
None
}
}
}
} else {
if v < 0x2F9FB {
if v < 0x2F9FA {
if v == 0x2F9F9 {
Some(seq!['\u{4A76}'])
} else {
None
}
} else {
if v == 0x2F9FA {
Some(seq!['\u{97E0}'])
} else {
None
}
}
} else {
if v < 0x2F9FC {
if v == 0x2F9FB {
Some(seq!['\u{2940A}'])
} else {
None
}
} else {
if v == 0x2F9FC {
Some(seq!['\u{4AB2}'])
} else {
None
}
}
}
}
}
}
} else {
if v < 0x2FA0D {
if v < 0x2FA05 {
if v < 0x2FA01 {
if v < 0x2F9FF {
if v < 0x2F9FE {
if v == 0x2F9FD {
Some(seq!['\u{29496}'])
} else {
None
}
} else {
if v == 0x2F9FE {
Some(seq!['\u{980B}'])
} else {
None
}
}
} else {
if v < 0x2FA00 {
if v == 0x2F9FF {
Some(seq!['\u{980B}'])
} else {
None
}
} else {
if v == 0x2FA00 {
Some(seq!['\u{9829}'])
} else {
None
}
}
}
} else {
if v < 0x2FA03 {
if v < 0x2FA02 {
if v == 0x2FA01 {
Some(seq!['\u{295B6}'])
} else {
None
}
} else {
if v == 0x2FA02 {
Some(seq!['\u{98E2}'])
} else {
None
}
}
} else {
if v < 0x2FA04 {
if v == 0x2FA03 {
Some(seq!['\u{4B33}'])
} else {
None
}
} else {
if v == 0x2FA04 {
Some(seq!['\u{9929}'])
} else {
None
}
}
}
}
} else {
if v < 0x2FA09 {
if v < 0x2FA07 {
if v < 0x2FA06 {
if v == 0x2FA05 {
Some(seq!['\u{99A7}'])
} else {
None
}
} else {
if v == 0x2FA06 {
Some(seq!['\u{99C2}'])
} else {
None
}
}
} else {
if v < 0x2FA08 {
if v == 0x2FA07 {
Some(seq!['\u{99FE}'])
} else {
None
}
} else {
if v == 0x2FA08 {
Some(seq!['\u{4BCE}'])
} else {
None
}
}
}
} else {
if v < 0x2FA0B {
if v < 0x2FA0A {
if v == 0x2FA09 {
Some(seq!['\u{29B30}'])
} else {
None
}
} else {
if v == 0x2FA0A {
Some(seq!['\u{9B12}'])
} else {
None
}
}
} else {
if v < 0x2FA0C {
if v == 0x2FA0B {
Some(seq!['\u{9C40}'])
} else {
None
}
} else {
if v == 0x2FA0C {
Some(seq!['\u{9CFD}'])
} else {
None
}
}
}
}
}
} else {
if v < 0x2FA15 {
if v < 0x2FA11 {
if v < 0x2FA0F {
if v < 0x2FA0E {
if v == 0x2FA0D {
Some(seq!['\u{4CCE}'])
} else {
None
}
} else {
if v == 0x2FA0E {
Some(seq!['\u{4CED}'])
} else {
None
}
}
} else {
if v < 0x2FA10 {
if v == 0x2FA0F {
Some(seq!['\u{9D67}'])
} else {
None
}
} else {
if v == 0x2FA10 {
Some(seq!['\u{2A0CE}'])
} else {
None
}
}
}
} else {
if v < 0x2FA13 {
if v < 0x2FA12 {
if v == 0x2FA11 {
Some(seq!['\u{4CF8}'])
} else {
None
}
} else {
if v == 0x2FA12 {
Some(seq!['\u{2A105}'])
} else {
None
}
}
} else {
if v < 0x2FA14 {
if v == 0x2FA13 {
Some(seq!['\u{2A20E}'])
} else {
None
}
} else {
if v == 0x2FA14 {
Some(seq!['\u{2A291}'])
} else {
None
}
}
}
}
} else {
if v < 0x2FA19 {
if v < 0x2FA17 {
if v < 0x2FA16 {
if v == 0x2FA15 {
Some(seq!['\u{9EBB}'])
} else {
None
}
} else {
if v == 0x2FA16 {
Some(seq!['\u{4D56}'])
} else {
None
}
}
} else {
if v < 0x2FA18 {
if v == 0x2FA17 {
Some(seq!['\u{9EF9}'])
} else {
None
}
} else {
if v == 0x2FA18 {
Some(seq!['\u{9EFE}'])
} else {
None
}
}
}
} else {
if v < 0x2FA1B {
if v < 0x2FA1A {
if v == 0x2FA19 {
Some(seq!['\u{9F05}'])
} else {
None
}
} else {
if v == 0x2FA1A {
Some(seq!['\u{9F0F}'])
} else {
None
}
}
} else {
if v < 0x2FA1C {
if v == 0x2FA1B {
Some(seq!['\u{9F16}'])
} else {
None
}
} else {
if v < 0x2FA1D {
if v == 0x2FA1C {
Some(seq!['\u{9F3B}'])
} else {
None
}
} else {
if v == 0x2FA1D {
Some(seq!['\u{2A600}'])
} else {
None
}
}
}
}
}
}
}
}
}
}
}
}
}
}

/// The full canonical decomposition of `v` (see `decomposition`).
pub fn decomposition_of(v: u32) -> (r: Option<Vec<char>>)
    ensures
        match r {
            Some(d) => decomposition(v) == Some(d@),
            None => decomposition(v) is None,
        },
{
if v < 0xF91F {
if v < 0x1E64 {
if v < 0x37E {
if v < 0x15C {
if v < 0x10B {
if v < 0xE7 {
if v < 0xD2 {
if v < 0xC9 {
if v < 0xC4 {
if v < 0xC2 {
if v < 0xC1 {
if v == 0xC0 {
Some(vec!['\u{41}', '\u{300}'])
} else {
None
}
} else {
if v == 0xC1 {
Some(vec!['\u{41}', '\u{301}'])
} else {
None
}
}
} else {
if v < 0xC3 {
if v == 0xC2 {
Some(vec!['\u{41}', '\u{302}'])
} else {
None
}
} else {
if v == 0xC3 {
Some(vec!['\u{41}', '\u{303}'])
} else {
None
}
}
}
} else {
if v < 0xC7 {
if v < 0xC5 {
if v == 0xC4 {
Some(vec!['\u{41}', '\u{308}'])
} else {
None
}
} else {
if v == 0xC5 {
Some(vec!['\u{41}', '\u{30A}'])
} else {
None
}
}
} else {
if v < 0xC8 {
if v == 0xC7 {
Some(vec!['\u{43}', '\u{327}'])
} else {
None
}
} else {
if v == 0xC8 {
Some(vec!['\u{45}', '\u{300}'])
} else {
None
}
}
}
}
} else {
if v < 0xCD {
if v < 0xCB {
if v < 0xCA {
if v == 0xC9 {
Some(vec!['\u{45}', '\u{301}'])
} else {
None
}
} else {
if v == 0xCA {
Some(vec!['\u{45}', '\u{302}'])
} else {
None
}
}
} else {
if v < 0xCC {
if v == 0xCB {
Some(vec!['\u{45}', '\u{308}'])
} else {
None
}
} else {
if v == 0xCC {
Some(vec!['\u{49}', '\u{300}'])
} else {
None
}
}
}
} else {
if v < 0xCF {
if v < 0xCE {
if v == 0xCD {
Some(vec!['\u{49}', '\u{301}'])
} else {
None
}
} else {
if v == 0xCE {
Some(vec!['\u{49}', '\u{302}'])
} else {
None
}
}
} else {
if v < 0xD1 {
if v == 0xCF {
Some(vec!['\u{49}', '\u{308}'])
} else {
None
}
} else {
if v == 0xD1 {
Some(vec!['\u{4E}', '\u{303}'])
} else {
None
}
}
}
}
}
} else {
if v < 0xDC {
if v < 0xD6 {
if v < 0xD4 {
if v < 0xD3 {
if v == 0xD2 {
Some(vec!['\u{4F}', '\u{300}'])
} else {
None
}
} else {
if v == 0xD3 {
Some(vec!['\u{4F}', '\u{301}'])
} else {
None
}
}
} else {
if v < 0xD5 {
if v == 0xD4 {
Some(vec!['\u{4F}', '\u{302}'])
} else {
None
}
} else {
if v == 0xD5 {
Some(vec!['\u{4F}', '\u{303}'])
} else {
None
}
}
}
} else {
if v < 0xDA {
if v < 0xD9 {
if v == 0xD6 {
Some(vec!['\u{4F}', '\u{308}'])
} else {
None
}
} else {
if v == 0xD9 {
Some(vec!['\u{55}', '\u{300}'])
} else {
None
}
}
} else {
if v < 0xDB {
if v == 0xDA {
Some(vec!['\u{55}', '\u{301}'])
} else {
None
}
} else {
if v == 0xDB {
Some(vec!['\u{55}', '\u{302}'])
} else {
None
}
}
}
}
} else {
if v < 0xE2 {
if v < 0xE0 {
if v < 0xDD {
if v == 0xDC {
Some(vec!['\u{55}', '\u{308}'])
} else {
None
}
} else {
if v == 0xDD {
Some(vec!['\u{59}', '\u{301}'])
} else {
None
}
}
} else {
if v < 0xE1 {
if v == 0xE0 {
Some(vec!['\u{61}', '\u{300}'])
} else {
None
}
} else {
if v == 0xE1 {
Some(vec!['\u{61}', '\u{301}'])
} else {
None
}
}
}
} else {
if v < 0xE4 {
if v < 0xE3 {
if v == 0xE2 {
Some(vec!['\u{61}', '\u{302}'])
} else {
None
}
} else {
if v == 0xE3 {
Some(vec!['\u{61}', '\u{303}'])
} else {
None
}
}
} else {
if v < 0xE5 {
if v == 0xE4 {
Some(vec!['\u{61}', '\u{308}'])
} else {
None
}
} else {
if v == 0xE5 {
Some(vec!['\u{61}', '\u{30A}'])
} else {
None
}
}
}
}
}
}
} else {
if v < 0xFA {
if v < 0xEF {
if v < 0xEB {
if v < 0xE9 {
if v < 0xE8 {
if v == 0xE7 {
Some(vec!['\u{63}', '\u{327}'])
} else {
None
}
} else {
if v == 0xE8 {
Some(vec!['\u{65}', '\u{300}'])
} else {
None
}
}
} else {
if v < 0xEA {
if v == 0xE9 {
Some(vec!['\u{65}', '\u{301}'])
} else {
None
}
} else {
if v == 0xEA {
Some(vec!['\u{65}', '\u{302}'])
} else {
None
}
}
}
} else {
if v < 0xED {
if v < 0xEC {
if v == 0xEB {
Some(vec!['\u{65}', '\u{308}'])
} else {
None
}
} else {
if v == 0xEC {
Some(vec!['\u{69}', '\u{300}'])
} else {
None
}
}
} else {
if v < 0xEE {
if v == 0xED {
Some(vec!['\u{69}', '\u{301}'])
} else {
None
}
} else {
if v == 0xEE {
Some(vec!['\u{69}', '\u{302}'])
} else {
None
}
}
}
}
} else {
if v < 0xF4 {
if v < 0xF2 {
if v < 0xF1 {
if v == 0xEF {
Some(vec!['\u{69}', '\u{308}'])
} else {
None
}
} else {
if v == 0xF1 {
Some(vec!['\u{6E}', '\u{303}'])
} else {
None
}
}
} else {
if v < 0xF3 {
if v == 0xF2 {
Some(vec!['\u{6F}', '\u{300}'])
} else {
None
}
} else {
if v == 0xF3 {
Some(vec!['\u{6F}', '\u{301}'])
} else {
None
}
}
}
} else {
if v < 0xF6 {
if v < 0xF5 {
if v == 0xF4 {
Some(vec!['\u{6F}', '\u{302}'])
} else {
None
}
} else {
if v == 0xF5 {
Some(vec!['\u{6F}', '\u{303}'])
} else {
None
}
}
} else {
if v < 0xF9 {
if v == 0xF6 {
Some(vec!['\u{6F}', '\u{308}'])
} else {
None
}
} else {
if v == 0xF9 {
Some(vec!['\u{75}', '\u{300}'])
} else {
None
}
}
}
}
}
} else {
if v < 0x103 {
if v < 0xFF {
if v < 0xFC {
if v < 0xFB {
if v == 0xFA {
Some(vec!['\u{75}', '\u{301}'])
} else {
None
}
} else {
if v == 0xFB {
Some(vec!['\u{75}', '\u{302}'])
} else {
None
}
}
} else {
if v < 0xFD {
if v == 0xFC {
Some(vec!['\u{75}', '\u{308}'])
} else {
None
}
} else {
if v == 0xFD {
Some(vec!['\u{79}', '\u{301}'])
} else {
None
}
}
}
} else {
if v < 0x101 {
if v < 0x100 {
if v == 0xFF {
Some(vec!['\u{79}', '\u{308}'])
} else {
None
}
} else {
if v == 0x100 {
Some(vec!['\u{41}', '\u{304}'])
} else {
None
}
}
} else {
if v < 0x102 {
if v == 0x101 {
Some(vec!['\u{61}', '\u{304}'])
} else {
None
}
} else {
if v == 0x102 {
Some(vec!['\u{41}', '\u{306}'])
} else {
None
}
}
}
}
} else {
if v < 0x107 {
if v < 0x105 {
if v < 0x104 {
if v == 0x103 {
Some(vec!['\u{61}', '\u{306}'])
} else {
None
}
} else {
if v == 0x104 {
Some(vec!['\u{41}', '\u{328}'])
} else {
None
}
}
} else {
if v < 0x106 {
if v == 0x105 {
Some(vec!['\u{61}', '\u{328}'])
} else {
None
}
} else {
if v == 0x106 {
Some(vec!['\u{43}', '\u{301}'])
} else {
None
}
}
}
} else {
if v < 0x109 {
if v < 0x108 {
if v == 0x107 {
Some(vec!['\u{63}', '\u{301}'])
} else {
None
}
} else {
if v == 0x108 {
Some(vec!['\u{43}', '\u{302}'])
} else {
None
}
}
} else {
if v < 0x10A {
if v == 0x109 {
Some(vec!['\u{63}', '\u{302}'])
} else {
None
}
} else {
if v == 0x10A {
Some(vec!['\u{43}', '\u{307}'])
} else {
None
}
}
}
}
}
}
}
} else {
if v < 0x12F {
if v < 0x11D {
if v < 0x115 {
if v < 0x10F {
if v < 0x10D {
if v < 0x10C {
if v == 0x10B {
Some(vec!['\u{63}', '\u{307}'])
} else {
None
}
} else {
if v == 0x10C {
Some(vec!['\u{43}', '\u{30C}'])
} else {
None
}
}
} else {
if v < 0x10E {
if v == 0x10D {
Some(vec!['\u{63}', '\u{30C}'])
} else {
None
}
} else {
if v == 0x10E {
Some(vec!['\u{44}', '\u{30C}'])
} else {
None
}
}
}
} else {
if v < 0x113 {
if v < 0x112 {
if v == 0x10F {
Some(vec!['\u{64}', '\u{30C}'])
} else {
None
}
} else {
if v == 0x112 {
Some(vec!['\u{45}', '\u{304}'])
} else {
None
}
}
} else {
if v < 0x114 {
if v == 0x113 {
Some(vec!['\u{65}', '\u{304}'])
} else {
None
}
} else {
if v == 0x114 {
Some(vec!['\u{45}', '\u{306}'])
} else {
None
}
}
}
}
} else {
if v < 0x119 {
if v < 0x117 {
if v < 0x116 {
if v == 0x115 {
Some(vec!['\u{65}', '\u{306}'])
} else {
None
}
} else {
if v == 0x116 {
Some(vec!['\u{45}', '\u{307}'])
} else {
None
}
}
} else {
if v < 0x118 {
if v == 0x117 {
Some(vec!['\u{65}', '\u{307}'])
} else {
None
}
} else {
if v == 0x118 {
Some(vec!['\u{45}', '\u{328}'])
} else {
None
}
}
}
} else {
if v < 0x11B {
if v < 0x11A {
if v == 0x119 {
Some(vec!['\u{65}', '\u{328}'])
} else {
None
}
} else {
if v == 0x11A {
Some(vec!['\u{45}', '\u{30C}'])
} else {
None
}
}
} else {
if v < 0x11C {
if v == 0x11B {
Some(vec!['\u{65}', '\u{30C}'])
} else {
None
}
} else {
if v == 0x11C {
Some(vec!['\u{47}', '\u{302}'])
} else {
None
}
}
}
}
}
} else {
if v < 0x125 {
if v < 0x121 {
if v < 0x11F {
if v < 0x11E {
if v == 0x11D {
Some(vec!['\u{67}', '\u{302}'])
} else {
None
}
} else {
if v == 0x11E {
Some(vec!['\u{47}', '\u{306}'])
} else {
None
}
}
} else {
if v < 0x120 {
if v == 0x11F {
Some(vec!['\u{67}', '\u{306}'])
} else {
None
}
} else {
if v == 0x120 {
Some(vec!['\u{47}', '\u{307}'])
} else {
None
}
}
}
} else {
if v < 0x123 {
if v < 0x122 {
if v == 0x121 {
Some(vec!['\u{67}', '\u{307}'])
} else {
None
}
} else {
if v == 0x122 {
Some(vec!['\u{47}', '\u{327}'])
} else {
None
}
}
} else {
if v < 0x124 {
if v == 0x123 {
Some(vec!['\u{67}', '\u{327}'])
} else {
None
}
} else {
if v == 0x124 {
Some(vec!['\u{48}', '\u{302}'])
} else {
None
}
}
}
}
} else {
if v < 0x12B {
if v < 0x129 {
if v < 0x128 {
if v == 0x125 {
Some(vec!['\u{68}', '\u{302}'])
} else {
None
}
} else {
if v == 0x128 {
Some(vec!['\u{49}', '\u{303}'])
} else {
None
}
}
} else {
if v < 0x12A {
if v == 0x129 {
Some(vec!['\u{69}', '\u{303}'])
} else {
None
}
} else {
if v == 0x12A {
Some(vec!['\u{49}', '\u{304}'])
} else {
None
}
}
}
} else {
if v < 0x12D {
if v < 0x12C {
if v == 0x12B {
Some(vec!['\u{69}', '\u{304}'])
} else {
None
}
} else {
if v == 0x12C {
Some(vec!['\u{49}', '\u{306}'])
} else {
None
}
}
} else {
if v < 0x12E {
if v == 0x12D {
Some(vec!['\u{69}', '\u{306}'])
} else {
None
}
} else {
if v == 0x12E {
Some(vec!['\u{49}', '\u{328}'])
} else {
None
}
}
}
}
}
}
} else {
if v < 0x147 {
if v < 0x13B {
if v < 0x136 {
if v < 0x134 {
if v < 0x130 {
if v == 0x12F {
Some(vec!['\u{69}', '\u{328}'])
} else {
None
}
} else {
if v == 0x130 {
Some(vec!['\u{49}', '\u{307}'])
} else {
None
}
}
} else {
if v < 0x135 {
if v == 0x134 {
Some(vec!['\u{4A}', '\u{302}'])
} else {
None
}
} else {
if v == 0x135 {
Some(vec!['\u{6A}', '\u{302}'])
} else {
None
}
}
}
} else {
if v < 0x139 {
if v < 0x137 {
if v == 0x136 {
Some(vec!['\u{4B}', '\u{327}'])
} else {
None
}
} else {
if v == 0x137 {
Some(vec!['\u{6B}', '\u{327}'])
} else {
None
}
}
} else {
if v < 0x13A {
if v == 0x139 {
Some(vec!['\u{4C}', '\u{301}'])
} else {
None
}
} else {
if v == 0x13A {
Some(vec!['\u{6C}', '\u{301}'])
} else {
None
}
}
}
}
} else {
if v < 0x143 {
if v < 0x13D {
if v < 0x13C {
if v == 0x13B {
Some(vec!['\u{4C}', '\u{327}'])
} else {
None
}
} else {
if v == 0x13C {
Some(vec!['\u{6C}', '\u{327}'])
} else {
None
}
}
} else {
if v < 0x13E {
if v == 0x13D {
Some(vec!['\u{4C}', '\u{30C}'])
} else {
None
}
} else {
if v == 0x13E {
Some(vec!['\u{6C}', '\u{30C}'])
} else {
None
}
}
}
} else {
if v < 0x145 {
if v < 0x144 {
if v == 0x143 {
Some(vec!['\u{4E}', '\u{301}'])
} else {
None
}
} else {
if v == 0x144 {
Some(vec!['\u{6E}', '\u{301}'])
} else {
None
}
}
} else {
if v < 0x146 {
if v == 0x145 {
Some(vec!['\u{4E}', '\u{327}'])
} else {
None
}
} else {
if v == 0x146 {
Some(vec!['\u{6E}', '\u{327}'])
} else {
None
}
}
}
}
}
} else {
if v < 0x154 {
if v < 0x14E {
if v < 0x14C {
if v < 0x148 {
if v == 0x147 {
Some(vec!['\u{4E}', '\u{30C}'])
} else {
None
}
} else {
if v == 0x148 {
Some(vec!['\u{6E}', '\u{30C}'])
} else {
None
}
}
} else {
if v < 0x14D {
if v == 0x14C {
Some(vec!['\u{4F}', '\u{304}'])
} else {
None
}
} else {
if v == 0x14D {
Some(vec!['\u{6F}', '\u{304}'])
} else {
None
}
}
}
} else {
if v < 0x150 {
if v < 0x14F {
if v == 0x14E {
Some(vec!['\u{4F}', '\u{306}'])
} else {
None
}
} else {
if v == 0x14F {
Some(vec!['\u{6F}', '\u{306}'])
} else {
None
}
}
} else {
if v < 0x151 {
if v == 0x150 {
Some(vec!['\u{4F}', '\u{30B}'])
} else {
None
}
} else {
if v == 0x151 {
Some(vec!['\u{6F}', '\u{30B}'])
} else {
None
}
}
}
}
} else {
if v < 0x158 {
if v < 0x156 {
if v < 0x155 {
if v == 0x154 {
Some(vec!['\u{52}', '\u{301}'])
} else {
None
}
} else {
if v == 0x155 {
Some(vec!['\u{72}', '\u{301}'])
} else {
None
}
}
} else {
if v < 0x157 {
if v == 0x156 {
Some(vec!['\u{52}', '\u{327}'])
} else {
None
}
} else {
if v == 0x157 {
Some(vec!['\u{72}', '\u{327}'])
} else {
None
}
}
}
} else {
if v < 0x15A {
if v < 0x159 {
if v == 0x158 {
Some(vec!['\u{52}', '\u{30C}'])
} else {
None
}
} else {
if v == 0x159 {
Some(vec!['\u{72}', '\u{30C}'])
} else {
None
}
}
} else {
if v < 0x15B {
if v == 0x15A {
Some(vec!['\u{53}', '\u{301}'])
} else {
None
}
} else {
if v == 0x15B {
Some(vec!['\u{73}', '\u{301}'])
} else {
None
}
}
}
}
}
}
}
}
} else {
if v < 0x1EB {
if v < 0x17E {
if v < 0x16E {
if v < 0x164 {
if v < 0x160 {
if v < 0x15E {
if v < 0x15D {
if v == 0x15C {
Some(vec!['\u{53}', '\u{302}'])
} else {
None
}
} else {
if v == 0x15D {
Some(vec!['\u{73}', '\u{302}'])
} else {
None
}
}
} else {
if v < 0x15F {
if v == 0x15E {
Some(vec!['\u{53}', '\u{327}'])
} else {
None
}
} else {
if v == 0x15F {
Some(vec!['\u{73}', '\u{327}'])
} else {
None
}
}
}
} else {
if v < 0x162 {
if v < 0x161 {
if v == 0x160 {
Some(vec!['\u{53}', '\u{30C}'])
} else {
None
}
} else {
if v == 0x161 {
Some(vec!['\u{73}', '\u{30C}'])
} else {
None
}
}
} else {
if v < 0x163 {
if v == 0x162 {
Some(vec!['\u{54}', '\u{327}'])
} else {
None
}
} else {
if v == 0x163 {
Some(vec!['\u{74}', '\u{327}'])
} else {
None
}
}
}
}
} else {
if v < 0x16A {
if v < 0x168 {
if v < 0x165 {
if v == 0x164 {
Some(vec!['\u{54}', '\u{30C}'])
} else {
None
}
} else {
if v == 0x165 {
Some(vec!['\u{74}', '\u{30C}'])
} else {
None
}
}
} else {
if v < 0x169 {
if v == 0x168 {
Some(vec!['\u{55}', '\u{303}'])
} else {
None
}
} else {
if v == 0x169 {
Some(vec!['\u{75}', '\u{303}'])
} else {
None
}
}
}
} else {
if v < 0x16C {
if v < 0x16B {
if v == 0x16A {
Some(vec!['\u{55}', '\u{304}'])
} else {
None
}
} else {
if v == 0x16B {
Some(vec!['\u{75}', '\u{304}'])
} else {
None
}
}
} else {
if v < 0x16D {
if v == 0x16C {
Some(vec!['\u{55}', '\u{306}'])
} else {
None
}
} else {
if v == 0x16D {
Some(vec!['\u{75}', '\u{306}'])
} else {
None
}
}
}
}
}
} else {
if v < 0x176 {
if v < 0x172 {
if v < 0x170 {
if v < 0x16F {
if v == 0x16E {
Some(vec!['\u{55}', '\u{30A}'])
} else {
None
}
} else {
if v == 0x16F {
Some(vec!['\u{75}', '\u{30A}'])
} else {
None
}
}
} else {
if v < 0x171 {
if v == 0x170 {
Some(vec!['\u{55}', '\u{30B}'])
} else {
None
}
} else {
if v == 0x171 {
Some(vec!['\u{75}', '\u{30B}'])
} else {
None
}
}
}
} else {
if v < 0x174 {
if v < 0x173 {
if v == 0x172 {
Some(vec!['\u{55}', '\u{328}'])
} else {
None
}
} else {
if v == 0x173 {
Some(vec!['\u{75}', '\u{328}'])
} else {
None
}
}
} else {
if v < 0x175 {
if v == 0x174 {
Some(vec!['\u{57}', '\u{302}'])
} else {
None
}
} else {
if v == 0x175 {
Some(vec!['\u{77}', '\u{302}'])
} else {
None
}
}
}
}
} else {
if v < 0x17A {
if v < 0x178 {
if v < 0x177 {
if v == 0x176 {
Some(vec!['\u{59}', '\u{302}'])
} else {
None
}
} else {
if v == 0x177 {
Some(vec!['\u{79}', '\u{302}'])
} else {
None
}
}
} else {
if v < 0x179 {
if v == 0x178 {
Some(vec!['\u{59}', '\u{308}'])
} else {
None
}
} else {
if v == 0x179 {
Some(vec!['\u{5A}', '\u{301}'])
} else {
None
}
}
}
} else {
if v < 0x17C {
if v < 0x17B {
if v == 0x17A {
Some(vec!['\u{7A}', '\u{301}'])
} else {
None
}
} else {
if v == 0x17B {
Some(vec!['\u{5A}', '\u{307}'])
} else {
None
}
}
} else {
if v < 0x17D {
if v == 0x17C {
Some(vec!['\u{7A}', '\u{307}'])
} else {
None
}
} else {
if v == 0x17D {
Some(vec!['\u{5A}', '\u{30C}'])
} else {
None
}
}
}
}
}
}
} else {
if v < 0x1D8 {
if v < 0x1D0 {
if v < 0x1B0 {
if v < 0x1A1 {
if v < 0x1A0 {
if v == 0x17E {
Some(vec!['\u{7A}', '\u{30C}'])
} else {
None
}
} else {
if v == 0x1A0 {
Some(vec!['\u{4F}', '\u{31B}'])
} else {
None
}
}
} else {
if v < 0x1AF {
if v == 0x1A1 {
Some(vec!['\u{6F}', '\u{31B}'])
} else {
None
}
} else {
if v == 0x1AF {
Some(vec!['\u{55}', '\u{31B}'])
} else {
None
}
}
}
} else {
if v < 0x1CE {
if v < 0x1CD {
if v == 0x1B0 {
Some(vec!['\u{75}', '\u{31B}'])
} else {
None
}
} else {
if v == 0x1CD {
Some(vec!['\u{41}', '\u{30C}'])
} else {
None
}
}
} else {
if v < 0x1CF {
if v == 0x1CE {
Some(vec!['\u{61}', '\u{30C}'])
} else {
None
}
} else {
if v == 0x1CF {
Some(vec!['\u{49}', '\u{30C}'])
} else {
None
}
}
}
}
} else {
if v < 0x1D4 {
if v < 0x1D2 {
if v < 0x1D1 {
if v == 0x1D0 {
Some(vec!['\u{69}', '\u{30C}'])
} else {
None
}
} else {
if v == 0x1D1 {
Some(vec!['\u{4F}', '\u{30C}'])
} else {
None
}
}
} else {
if v < 0x1D3 {
if v == 0x1D2 {
Some(vec!['\u{6F}', '\u{30C}'])
} else {
None
}
} else {
if v == 0x1D3 {
Some(vec!['\u{55}', '\u{30C}'])
} else {
None
}
}
}
} else {
if v < 0x1D6 {
if v < 0x1D5 {
if v == 0x1D4 {
Some(vec!['\u{75}', '\u{30C}'])
} else {
None
}
} else {
if v == 0x1D5 {
Some(vec!['\u{55}', '\u{308}', '\u{304}'])
} else {
None
}
}
} else {
if v < 0x1D7 {
if v == 0x1D6 {
Some(vec!['\u{75}', '\u{308}', '\u{304}'])
} else {
None
}
} else {
if v == 0x1D7 {
Some(vec!['\u{55}', '\u{308}', '\u{301}'])
} else {
None
}
}
}
}
}
} else {
if v < 0x1E1 {
if v < 0x1DC {
if v < 0x1DA {
if v < 0x1D9 {
if v == 0x1D8 {
Some(vec!['\u{75}', '\u{308}', '\u{301}'])
} else {
None
}
} else {
if v == 0x1D9 {
Some(vec!['\u{55}', '\u{308}', '\u{30C}'])
} else {
None
}
}
} else {
if v < 0x1DB {
if v == 0x1DA {
Some(vec!['\u{75}', '\u{308}', '\u{30C}'])
} else {
None
}
} else {
if v == 0x1DB {
Some(vec!['\u{55}', '\u{308}', '\u{300}'])
} else {
None
}
}
}
} else {
if v < 0x1DF {
if v < 0x1DE {
if v == 0x1DC {
Some(vec!['\u{75}', '\u{308}', '\u{300}'])
} else {
None
}
} else {
if v == 0x1DE {
Some(vec!['\u{41}', '\u{308}', '\u{304}'])
} else {
None
}
}
} else {
if v < 0x1E0 {
if v == 0x1DF {
Some(vec!['\u{61}', '\u{308}', '\u{304}'])
} else {
None
}
} else {
if v == 0x1E0 {
Some(vec!['\u{41}', '\u{307}', '\u{304}'])
} else {
None
}
}
}
}
} else {
if v < 0x1E7 {
if v < 0x1E3 {
if v < 0x1E2 {
if v == 0x1E1 {
Some(vec!['\u{61}', '\u{307}', '\u{304}'])
} else {
None
}
} else {
if v == 0x1E2 {
Some(vec!['\u{C6}', '\u{304}'])
} else {
None
}
}
} else {
if v < 0x1E6 {
if v == 0x1E3 {
Some(vec!['\u{E6}', '\u{304}'])
} else {
None
}
} else {
if v == 0x1E6 {
Some(vec!['\u{47}', '\u{30C}'])
} else {
None
}
}
}
} else {
if v < 0x1E9 {
if v < 0x1E8 {
if v == 0x1E7 {
Some(vec!['\u{67}', '\u{30C}'])
} else {
None
}
} else {
if v == 0x1E8 {
Some(vec!['\u{4B}', '\u{30C}'])
} else {
None
}
}
} else {
if v < 0x1EA {
if v == 0x1E9 {
Some(vec!['\u{6B}', '\u{30C}'])
} else {
None
}
} else {
if v == 0x1EA {
Some(vec!['\u{4F}', '\u{328}'])
} else {
None
}
}
}
}
}
}
}
} else {
if v < 0x210 {
if v < 0x200 {
if v < 0x1F8 {
if v < 0x1EF {
if v < 0x1ED {
if v < 0x1EC {
if v == 0x1EB {
Some(vec!['\u{6F}', '\u{328}'])
} else {
None
}
} else {
if v == 0x1EC {
Some(vec!['\u{4F}', '\u{328}', '\u{304}'])
} else {
None
}
}
} else {
if v < 0x1EE {
if v == 0x1ED {
Some(vec!['\u{6F}', '\u{328}', '\u{304}'])
} else {
None
}
} else {
if v == 0x1EE {
Some(vec!['\u{1B7}', '\u{30C}'])
} else {
None
}
}
}
} else {
if v < 0x1F4 {
if v < 0x1F0 {
if v == 0x1EF {
Some(vec!['\u{292}', '\u{30C}'])
} else {
None
}
} else {
if v == 0x1F0 {
Some(vec!['\u{6A}', '\u{30C}'])
} else {
None
}
}
} else {
if v < 0x1F5 {
if v == 0x1F4 {
Some(vec!['\u{47}', '\u{301}'])
} else {
None
}
} else {
if v == 0x1F5 {
Some(vec!['\u{67}', '\u{301}'])
} else {
None
}
}
}
}
} else {
if v < 0x1FC {
if v < 0x1FA {
if v < 0x1F9 {
if v == 0x1F8 {
Some(vec!['\u{4E}', '\u{300}'])
} else {
None
}
} else {
if v == 0x1F9 {
Some(vec!['\u{6E}', '\u{300}'])
} else {
None
}
}
} else {
if v < 0x1FB {
if v == 0x1FA {
Some(vec!['\u{41}', '\u{30A}', '\u{301}'])
} else {
None
}
} else {
if v == 0x1FB {
Some(vec!['\u{61}', '\u{30A}', '\u{301}'])
} else {
None
}
}
}
} else {
if v < 0x1FE {
if v < 0x1FD {
if v == 0x1FC {
Some(vec!['\u{C6}', '\u{301}'])
} else {
None
}
} else {
if v == 0x1FD {
Some(vec!['\u{E6}', '\u{301}'])
} else {
None
}
}
} else {
if v < 0x1FF {
if v == 0x1FE {
Some(vec!['\u{D8}', '\u{301}'])
} else {
None
}
} else {
if v == 0x1FF {
Some(vec!['\u{F8}', '\u{301}'])
} else {
None
}
}
}
}
}
} else {
if v < 0x208 {
if v < 0x204 {
if v < 0x202 {
if v < 0x201 {
if v == 0x200 {
Some(vec!['\u{41}', '\u{30F}'])
} else {
None
}
} else {
if v == 0x201 {
Some(vec!['\u{61}', '\u{30F}'])
} else {
None
}
}
} else {
if v < 0x203 {
if v == 0x202 {
Some(vec!['\u{41}', '\u{311}'])
} else {
None
}
} else {
if v == 0x203 {
Some(vec!['\u{61}', '\u{311}'])
} else {
None
}
}
}
} else {
if v < 0x206 {
if v < 0x205 {
if v == 0x204 {
Some(vec!['\u{45}', '\u{30F}'])
} else {
None
}
} else {
if v == 0x205 {
Some(vec!['\u{65}', '\u{30F}'])
} else {
None
}
}
} else {
if v < 0x207 {
if v == 0x206 {
Some(vec!['\u{45}', '\u{311}'])
} else {
None
}
} else {
if v == 0x207 {
Some(vec!['\u{65}', '\u{311}'])
} else {
None
}
}
}
}
} else {
if v < 0x20C {
if v < 0x20A {
if v < 0x209 {
if v == 0x208 {
Some(vec!['\u{49}', '\u{30F}'])
} else {
None
}
} else {
if v == 0x209 {
Some(vec!['\u{69}', '\u{30F}'])
} else {
None
}
}
} else {
if v < 0x20B {
if v == 0x20A {
Some(vec!['\u{49}', '\u{311}'])
} else {
None
}
} else {
if v == 0x20B {
Some(vec!['\u{69}', '\u{311}'])
} else {
None
}
}
}
} else {
if v < 0x20E {
if v < 0x20D {
if v == 0x20C {
Some(vec!['\u{4F}', '\u{30F}'])
} else {
None
}
} else {
if v == 0x20D {
Some(vec!['\u{6F}', '\u{30F}'])
} else {
None
}
}
} else {
if v < 0x20F {
if v == 0x20E {
Some(vec!['\u{4F}', '\u{311}'])
} else {
None
}
} else {
if v == 0x20F {
Some(vec!['\u{6F}', '\u{311}'])
} else {
None
}
}
}
}
}
}
} else {
if v < 0x228 {
if v < 0x218 {
if v < 0x214 {
if v < 0x212 {
if v < 0x211 {
if v == 0x210 {
Some(vec!['\u{52}', '\u{30F}'])
} else {
None
}
} else {
if v == 0x211 {
Some(vec!['\u{72}', '\u{30F}'])
} else {
None
}
}
} else {
if v < 0x213 {
if v == 0x212 {
Some(vec!['\u{52}', '\u{311}'])
} else {
None
}
} else {
if v == 0x213 {
Some(vec!['\u{72}', '\u{311}'])
} else {
None
}
}
}
} else {
if v < 0x216 {
if v < 0x215 {
if v == 0x214 {
Some(vec!['\u{55}', '\u{30F}'])
} else {
None
}
} else {
if v == 0x215 {
Some(vec!['\u{75}', '\u{30F}'])
} else {
None
}
}
} else {
if v < 0x217 {
if v == 0x216 {
Some(vec!['\u{55}', '\u{311}'])
} else {
None
}
} else {
if v == 0x217 {
Some(vec!['\u{75}', '\u{311}'])
} else {
None
}
}
}
}
} else {
if v < 0x21E {
if v < 0x21A {
if v < 0x219 {
if v == 0x218 {
Some(vec!['\u{53}', '\u{326}'])
} else {
None
}
} else {
if v == 0x219 {
Some(vec!['\u{73}', '\u{326}'])
} else {
None
}
}
} else {
if v < 0x21B {
if v == 0x21A {
Some(vec!['\u{54}', '\u{326}'])
} else {
None
}
} else {
if v == 0x21B {
Some(vec!['\u{74}', '\u{326}'])
} else {
None
}
}
}
} else {
if v < 0x226 {
if v < 0x21F {
if v == 0x21E {
Some(vec!['\u{48}', '\u{30C}'])
} else {
None
}
} else {
if v == 0x21F {
Some(vec!['\u{68}', '\u{30C}'])
} else {
None
}
}
} else {
if v < 0x227 {
if v == 0x226 {
Some(vec!['\u{41}', '\u{307}'])
} else {
None
}
} else {
if v == 0x227 {
Some(vec!['\u{61}', '\u{307}'])
} else {
None
}
}
}
}
}
} else {
if v < 0x230 {
if v < 0x22C {
if v < 0x22A {
if v < 0x229 {
if v == 0x228 {
Some(vec!['\u{45}', '\u{327}'])
} else {
None
}
} else {
if v == 0x229 {
Some(vec!['\u{65}', '\u{327}'])
} else {
None
}
}
} else {
if v < 0x22B {
if v == 0x22A {
Some(vec!['\u{4F}', '\u{308}', '\u{304}'])
} else {
None
}
} else {
if v == 0x22B {
Some(vec!['\u{6F}', '\u{308}', '\u{304}'])
} else {
None
}
}
}
} else {
if v < 0x22E {
if v < 0x22D {
if v == 0x22C {
Some(vec!['\u{4F}', '\u{303}', '\u{304}'])
} else {
None
}
} else {
if v == 0x22D {
Some(vec!['\u{6F}', '\u{303}', '\u{304}'])
} else {
None
}
}
} else {
if v < 0x22F {
if v == 0x22E {
Some(vec!['\u{4F}', '\u{307}'])
} else {
None
}
} else {
if v == 0x22F {
Some(vec!['\u{6F}', '\u{307}'])
} else {
None
}
}
}
}
} else {
if v < 0x340 {
if v < 0x232 {
if v < 0x231 {
if v == 0x230 {
Some(vec!['\u{4F}', '\u{307}', '\u{304}'])
} else {
None
}
} else {
if v == 0x231 {
Some(vec!['\u{6F}', '\u{307}', '\u{304}'])
} else {
None
}
}
} else {
if v < 0x233 {
if v == 0x232 {
Some(vec!['\u{59}', '\u{304}'])
} else {
None
}
} else {
if v == 0x233 {
Some(vec!['\u{79}', '\u{304}'])
} else {
None
}
}
}
} else {
if v < 0x343 {
if v < 0x341 {
if v == 0x340 {
Some(vec!['\u{300}'])
} else {
None
}
} else {
if v == 0x341 {
Some(vec!['\u{301}'])
} else {
None
}
}
} else {
if v < 0x344 {
if v == 0x343 {
Some(vec!['\u{313}'])
} else {
None
}
} else {
if v < 0x374 {
if v == 0x344 {
Some(vec!['\u{308}', '\u{301}'])
} else {
None
}
} else {
if v == 0x374 {
Some(vec!['\u{2B9}'])
} else {
None
}
}
}
}
}
}
}
}
}
}
} else {
if v < 0xF43 {
if v < 0x4EB {
if v < 0x419 {
if v < 0x3AF {
if v < 0x38E {
if v < 0x388 {
if v < 0x386 {
if v < 0x385 {
if v == 0x37E {
Some(vec!['\u{3B}'])
} else {
None
}
} else {
if v == 0x385 {
Some(vec!['\u{A8}', '\u{301}'])
} else {
None
}
}
} else {
if v < 0x387 {
if v == 0x386 {
Some(vec!['\u{391}', '\u{301}'])
} else {
None
}
} else {
if v == 0x387 {
Some(vec!['\u{B7}'])
} else {
None
}
}
}
} else {
if v < 0x38A {
if v < 0x389 {
if v == 0x388 {
Some(vec!['\u{395}', '\u{301}'])
} else {
None
}
} else {
if v == 0x389 {
Some(vec!['\u{397}', '\u{301}'])
} else {
None
}
}
} else {
if v < 0x38C {
if v == 0x38A {
Some(vec!['\u{399}', '\u{301}'])
} else {
None
}
} else {
if v == 0x38C {
Some(vec!['\u{39F}', '\u{301}'])
} else {
None
}
}
}
}
} else {
if v < 0x3AB {
if v < 0x390 {
if v < 0x38F {
if v == 0x38E {
Some(vec!['\u{3A5}', '\u{301}'])
} else {
None
}
} else {
if v == 0x38F {
Some(vec!['\u{3A9}', '\u{301}'])
} else {
None
}
}
} else {
if v < 0x3AA {
if v == 0x390 {
Some(vec!['\u{3B9}', '\u{308}', '\u{301}'])
} else {
None
}
} else {
if v == 0x3AA {
Some(vec!['\u{399}', '\u{308}'])
} else {
None
}
}
}
} else {
if v < 0x3AD {
if v < 0x3AC {
if v == 0x3AB {
Some(vec!['\u{3A5}', '\u{308}'])
} else {
None
}
} else {
if v == 0x3AC {
Some(vec!['\u{3B1}', '\u{301}'])
} else {
None
}
}
} else {
if v < 0x3AE {
if v == 0x3AD {
Some(vec!['\u{3B5}', '\u{301}'])
} else {
None
}
} else {
if v == 0x3AE {
Some(vec!['\u{3B7}', '\u{301}'])
} else {
None
}
}
}
}
}
} else {
if v < 0x3D4 {
if v < 0x3CC {
if v < 0x3CA {
if v < 0x3B0 {
if v == 0x3AF {
Some(vec!['\u{3B9}', '\u{301}'])
} else {
None
}
} else {
if v == 0x3B0 {
Some(vec!['\u{3C5}', '\u{308}', '\u{301}'])
} else {
None
}
}
} else {
if v < 0x3CB {
if v == 0x3CA {
Some(vec!['\u{3B9}', '\u{308}'])
} else {
None
}
} else {
if v == 0x3CB {
Some(vec!['\u{3C5}', '\u{308}'])
} else {
None
}
}
}
} else {
if v < 0x3CE {
if v < 0x3CD {
if v == 0x3CC {
Some(vec!['\u{3BF}', '\u{301}'])
} else {
None
}
} else {
if v == 0x3CD {
Some(vec!['\u{3C5}', '\u{301}'])
} else {
None
}
}
} else {
if v < 0x3D3 {
if v == 0x3CE {
Some(vec!['\u{3C9}', '\u{301}'])
} else {
None
}
} else {
if v == 0x3D3 {
Some(vec!['\u{3D2}', '\u{301}'])
} else {
None
}
}
}
}
} else {
if v < 0x407 {
if v < 0x401 {
if v < 0x400 {
if v == 0x3D4 {
Some(vec!['\u{3D2}', '\u{308}'])
} else {
None
}
} else {
if v == 0x400 {
Some(vec!['\u{415}', '\u{300}'])
} else {
None
}
}
} else {
if v < 0x403 {
if v == 0x401 {
Some(vec!['\u{415}', '\u{308}'])
} else {
None
}
} else {
if v == 0x403 {
Some(vec!['\u{413}', '\u{301}'])
} else {
None
}
}
}
} else {
if v < 0x40D {
if v < 0x40C {
if v == 0x407 {
Some(vec!['\u{406}', '\u{308}'])
} else {
None
}
} else {
if v == 0x40C {
Some(vec!['\u{41A}', '\u{301}'])
} else {
None
}
}
} else {
if v < 0x40E {
if v == 0x40D {
Some(vec!['\u{418}', '\u{300}'])
} else {
None
}
} else {
if v == 0x40E {
Some(vec!['\u{423}', '\u{306}'])
} else {
None
}
}
}
}
}
}
} else {
if v < 0x4D3 {
if v < 0x45E {
if v < 0x453 {
if v < 0x450 {
if v < 0x439 {
if v == 0x419 {
Some(vec!['\u{418}', '\u{306}'])
} else {
None
}
} else {
if v == 0x439 {
Some(vec!['\u{438}', '\u{306}'])
} else {
None
}
}
} else {
if v < 0x451 {
if v == 0x450 {
Some(vec!['\u{435}', '\u{300}'])
} else {
None
}
} else {
if v == 0x451 {
Some(vec!['\u{435}', '\u{308}'])
} else {
None
}
}
}
} else {
if v < 0x45C {
if v < 0x457 {
if v == 0x453 {
Some(vec!['\u{433}', '\u{301}'])
} else {
None
}
} else {
if v == 0x457 {
Some(vec!['\u{456}', '\u{308}'])
} else {
None
}
}
} else {
if v < 0x45D {
if v == 0x45C {
Some(vec!['\u{43A}', '\u{301}'])
} else {
None
}
} else {
if v == 0x45D {
Some(vec!['\u{438}', '\u{300}'])
} else {
None
}
}
}
}
} else {
if v < 0x4C2 {
if v < 0x477 {
if v < 0x476 {
if v == 0x45E {
Some(vec!['\u{443}', '\u{306}'])
} else {
None
}
} else {
if v == 0x476 {
Some(vec!['\u{474}', '\u{30F}'])
} else {
None
}
}
} else {
if v < 0x4C1 {
if v == 0x477 {
Some(vec!['\u{475}', '\u{30F}'])
} else {
None
}
} else {
if v == 0x4C1 {
Some(vec!['\u{416}', '\u{306}'])
} else {
None
}
}
}
} else {
if v < 0x4D1 {
if v < 0x4D0 {
if v == 0x4C2 {
Some(vec!['\u{436}', '\u{306}'])
} else {
None
}
} else {
if v == 0x4D0 {
Some(vec!['\u{410}', '\u{306}'])
} else {
None
}
}
} else {
if v < 0x4D2 {
if v == 0x4D1 {
Some(vec!['\u{430}', '\u{306}'])
} else {
None
}
} else {
if v == 0x4D2 {
Some(vec!['\u{410}', '\u{308}'])
} else {
None
}
}
}
}
}
} else {
if v < 0x4DF {
if v < 0x4DB {
if v < 0x4D7 {
if v < 0x4D6 {
if v == 0x4D3 {
Some(vec!['\u{430}', '\u{308}'])
} else {
None
}
} else {
if v == 0x4D6 {
Some(vec!['\u{415}', '\u{306}'])
} else {
None
}
}
} else {
if v < 0x4DA {
if v == 0x4D7 {
Some(vec!['\u{435}', '\u{306}'])
} else {
None
}
} else {
if v == 0x4DA {
Some(vec!['\u{4D8}', '\u{308}'])
} else {
None
}
}
}
} else {
if v < 0x4DD {
if v < 0x4DC {
if v == 0x4DB {
Some(vec!['\u{4D9}', '\u{308}'])
} else {
None
}
} else {
if v == 0x4DC {
Some(vec!['\u{416}', '\u{308}'])
} else {
None
}
}
} else {
if v < 0x4DE {
if v == 0x4DD {
Some(vec!['\u{436}', '\u{308}'])
} else {
None
}
} else {
if v == 0x4DE {
Some(vec!['\u{417}', '\u{308}'])
} else {
None
}
}
}
}
} else {
if v < 0x4E5 {
if v < 0x4E3 {
if v < 0x4E2 {
if v == 0x4DF {
Some(vec!['\u{437}', '\u{308}'])
} else {
None
}
} else {
if v == 0x4E2 {
Some(vec!['\u{418}', '\u{304}'])
} else {
None
}
}
} else {
if v < 0x4E4 {
if v == 0x4E3 {
Some(vec!['\u{438}', '\u{304}'])
} else {
None
}
} else {
if v == 0x4E4 {
Some(vec!['\u{418}', '\u{308}'])
} else {
None
}
}
}
} else {
if v < 0x4E7 {
if v < 0x4E6 {
if v == 0x4E5 {
Some(vec!['\u{438}', '\u{308}'])
} else {
None
}
} else {
if v == 0x4E6 {
Some(vec!['\u{41E}', '\u{308}'])
} else {
None
}
}
} else {
if v < 0x4EA {
if v == 0x4E7 {
Some(vec!['\u{43E}', '\u{308}'])
} else {
None
}
} else {
if v == 0x4EA {
Some(vec!['\u{4E8}', '\u{308}'])
} else {
None
}
}
}
}
}
}
}
} else {
if v < 0x9CB {
if v < 0x625 {
if v < 0x4F3 {
if v < 0x4EF {
if v < 0x4ED {
if v < 0x4EC {
if v == 0x4EB {
Some(vec!['\u{4E9}', '\u{308}'])
} else {
None
}
} else {
if v == 0x4EC {
Some(vec!['\u{42D}', '\u{308}'])
} else {
None
}
}
} else {
if v < 0x4EE {
if v == 0x4ED {
Some(vec!['\u{44D}', '\u{308}'])
} else {
None
}
} else {
if v == 0x4EE {
Some(vec!['\u{423}', '\u{304}'])
} else {
None
}
}
}
} else {
if v < 0x4F1 {
if v < 0x4F0 {
if v == 0x4EF {
Some(vec!['\u{443}', '\u{304}'])
} else {
None
}
} else {
if v == 0x4F0 {
Some(vec!['\u{423}', '\u{308}'])
} else {
None
}
}
} else {
if v < 0x4F2 {
if v == 0x4F1 {
Some(vec!['\u{443}', '\u{308}'])
} else {
None
}
} else {
if v == 0x4F2 {
Some(vec!['\u{423}', '\u{30B}'])
} else {
None
}
}
}
}
} else {
if v < 0x4F9 {
if v < 0x4F5 {
if v < 0x4F4 {
if v == 0x4F3 {
Some(vec!['\u{443}', '\u{30B}'])
} else {
None
}
} else {
if v == 0x4F4 {
Some(vec!['\u{427}', '\u{308}'])
} else {
None
}
}
} else {
if v < 0x4F8 {
if v == 0x4F5 {
Some(vec!['\u{447}', '\u{308}'])
} else {
None
}
} else {
if v == 0x4F8 {
Some(vec!['\u{42B}', '\u{308}'])
} else {
None
}
}
}
} else {
if v < 0x623 {
if v < 0x622 {
if v == 0x4F9 {
Some(vec!['\u{44B}', '\u{308}'])
} else {
None
}
} else {
if v == 0x622 {
Some(vec!['\u{627}', '\u{653}'])
} else {
None
}
}
} else {
if v < 0x624 {
if v == 0x623 {
Some(vec!['\u{627}', '\u{654}'])
} else {
None
}
} else {
if v == 0x624 {
Some(vec!['\u{648}', '\u{654}'])
} else {
None
}
}
}
}
}
} else {
if v < 0x958 {
if v < 0x6D3 {
if v < 0x6C0 {
if v < 0x626 {
if v == 0x625 {
Some(vec!['\u{627}', '\u{655}'])
} else {
None
}
} else {
if v == 0x626 {
Some(vec!['\u{64A}', '\u{654}'])
} else {
None
}
}
} else {
if v < 0x6C2 {
if v == 0x6C0 {
Some(vec!['\u{6D5}', '\u{654}'])
} else {
None
}
} else {
if v == 0x6C2 {
Some(vec!['\u{6C1}', '\u{654}'])
} else {
None
}
}
}
} else {
if v < 0x931 {
if v < 0x929 {
if v == 0x6D3 {
Some(vec!['\u{6D2}', '\u{654}'])
} else {
None
}
} else {
if v == 0x929 {
Some(vec!['\u{928}', '\u{93C}'])
} else {
None
}
}
} else {
if v < 0x934 {
if v == 0x931 {
Some(vec!['\u{930}', '\u{93C}'])
} else {
None
}
} else {
if v == 0x934 {
Some(vec!['\u{933}', '\u{93C}'])
} else {
None
}
}
}
}
} else {
if v < 0x95C {
if v < 0x95A {
if v < 0x959 {
if v == 0x958 {
Some(vec!['\u{915}', '\u{93C}'])
} else {
None
}
} else {
if v == 0x959 {
Some(vec!['\u{916}', '\u{93C}'])
} else {
None
}
}
} else {
if v < 0x95B {
if v == 0x95A {
Some(vec!['\u{917}', '\u{93C}'])
} else {
None
}
} else {
if v == 0x95B {
Some(vec!['\u{91C}', '\u{93C}'])
} else {
None
}
}
}
} else {
if v < 0x95E {
if v < 0x95D {
if v == 0x95C {
Some(vec!['\u{921}', '\u{93C}'])
} else {
None
}
} else {
if v == 0x95D {
Some(vec!['\u{922}', '\u{93C}'])
} else {
None
}
}
} else {
if v < 0x95F {
if v == 0x95E {
Some(vec!['\u{92B}', '\u{93C}'])
} else {
None
}
} else {
if v == 0x95F {
Some(vec!['\u{92F}', '\u{93C}'])
} else {
None
}
}
}
}
}
}
} else {
if v < 0xB94 {
if v < 0xA5A {
if v < 0x9DF {
if v < 0x9DC {
if v < 0x9CC {
if v == 0x9CB {
Some(vec!['\u{9C7}', '\u{9BE}'])
} else {
None
}
} else {
if v == 0x9CC {
Some(vec!['\u{9C7}', '\u{9D7}'])
} else {
None
}
}
} else {
if v < 0x9DD {
if v == 0x9DC {
Some(vec!['\u{9A1}', '\u{9BC}'])
} else {
None
}
} else {
if v == 0x9DD {
Some(vec!['\u{9A2}', '\u{9BC}'])
} else {
None
}
}
}
} else {
if v < 0xA36 {
if v < 0xA33 {
if v == 0x9DF {
Some(vec!['\u{9AF}', '\u{9BC}'])
} else {
None
}
} else {
if v == 0xA33 {
Some(vec!['\u{A32}', '\u{A3C}'])
} else {
None
}
}
} else {
if v < 0xA59 {
if v == 0xA36 {
Some(vec!['\u{A38}', '\u{A3C}'])
} else {
None
}
} else {
if v == 0xA59 {
Some(vec!['\u{A16}', '\u{A3C}'])
} else {
None
}
}
}
}
} else {
if v < 0xB4B {
if v < 0xA5E {
if v < 0xA5B {
if v == 0xA5A {
Some(vec!['\u{A17}', '\u{A3C}'])
} else {
None
}
} else {
if v == 0xA5B {
Some(vec!['\u{A1C}', '\u{A3C}'])
} else {
None
}
}
} else {
if v < 0xB48 {
if v == 0xA5E {
Some(vec!['\u{A2B}', '\u{A3C}'])
} else {
None
}
} else {
if v == 0xB48 {
Some(vec!['\u{B47}', '\u{B56}'])
} else {
None
}
}
}
} else {
if v < 0xB5C {
if v < 0xB4C {
if v == 0xB4B {
Some(vec!['\u{B47}', '\u{B3E}'])
} else {
None
}
} else {
if v == 0xB4C {
Some(vec!['\u{B47}', '\u{B57}'])
} else {
None
}
}
} else {
if v < 0xB5D {
if v == 0xB5C {
Some(vec!['\u{B21}', '\u{B3C}'])
} else {
None
}
} else {
if v == 0xB5D {
Some(vec!['\u{B22}', '\u{B3C}'])
} else {
None
}
}
}
}
}
} else {
if v < 0xCCA {
if v < 0xC48 {
if v < 0xBCB {
if v < 0xBCA {
if v == 0xB94 {
Some(vec!['\u{B92}', '\u{BD7}'])
} else {
None
}
} else {
if v == 0xBCA {
Some(vec!['\u{BC6}', '\u{BBE}'])
} else {
None
}
}
} else {
if v < 0xBCC {
if v == 0xBCB {
Some(vec!['\u{BC7}', '\u{BBE}'])
} else {
None
}
} else {
if v == 0xBCC {
Some(vec!['\u{BC6}', '\u{BD7}'])
} else {
None
}
}
}
} else {
if v < 0xCC7 {
if v < 0xCC0 {
if v == 0xC48 {
Some(vec!['\u{C46}', '\u{C56}'])
} else {
None
}
} else {
if v == 0xCC0 {
Some(vec!['\u{CBF}', '\u{CD5}'])
} else {
None
}
}
} else {
if v < 0xCC8 {
if v == 0xCC7 {
Some(vec!['\u{CC6}', '\u{CD5}'])
} else {
None
}
} else {
if v == 0xCC8 {
Some(vec!['\u{CC6}', '\u{CD6}'])
} else {
None
}
}
}
}
} else {
if v < 0xD4C {
if v < 0xD4A {
if v < 0xCCB {
if v == 0xCCA {
Some(vec!['\u{CC6}', '\u{CC2}'])
} else {
None
}
} else {
if v == 0xCCB {
Some(vec!['\u{CC6}', '\u{CC2}', '\u{CD5}'])
} else {
None
}
}
} else {
if v < 0xD4B {
if v == 0xD4A {
Some(vec!['\u{D46}', '\u{D3E}'])
} else {
None
}
} else {
if v == 0xD4B {
Some(vec!['\u{D47}', '\u{D3E}'])
} else {
None
}
}
}
} else {
if v < 0xDDC {
if v < 0xDDA {
if v == 0xD4C {
Some(vec!['\u{D46}', '\u{D57}'])
} else {
None
}
} else {
if v == 0xDDA {
Some(vec!['\u{DD9}', '\u{DCA}'])
} else {
None
}
}
} else {
if v < 0xDDD {
if v == 0xDDC {
Some(vec!['\u{DD9}', '\u{DCF}'])
} else {
None
}
} else {
if v < 0xDDE {
if v == 0xDDD {
Some(vec!['\u{DD9}', '\u{DCF}', '\u{DCA}'])
} else {
None
}
} else {
if v == 0xDDE {
Some(vec!['\u{DD9}', '\u{DDF}'])
} else {
None
}
}
}
}
}
}
}
}
}
} else {
if v < 0x1E23 {
if v < 0x1E03 {
if v < 0xFB9 {
if v < 0xF76 {
if v < 0xF5C {
if v < 0xF52 {
if v < 0xF4D {
if v == 0xF43 {
Some(vec!['\u{F42}', '\u{FB7}'])
} else {
None
}
} else {
if v == 0xF4D {
Some(vec!['\u{F4C}', '\u{FB7}'])
} else {
None
}
}
} else {
if v < 0xF57 {
if v == 0xF52 {
Some(vec!['\u{F51}', '\u{FB7}'])
} else {
None
}
} else {
if v == 0xF57 {
Some(vec!['\u{F56}', '\u{FB7}'])
} else {
None
}
}
}
} else {
if v < 0xF73 {
if v < 0xF69 {
if v == 0xF5C {
Some(vec!['\u{F5B}', '\u{FB7}'])
} else {
None
}
} else {
if v == 0xF69 {
Some(vec!['\u{F40}', '\u{FB5}'])
} else {
None
}
}
} else {
if v < 0xF75 {
if v == 0xF73 {
Some(vec!['\u{F71}', '\u{F72}'])
} else {
None
}
} else {
if v == 0xF75 {
Some(vec!['\u{F71}', '\u{F74}'])
} else {
None
}
}
}
}
} else {
if v < 0xF9D {
if v < 0xF81 {
if v < 0xF78 {
if v == 0xF76 {
Some(vec!['\u{FB2}', '\u{F80}'])
} else {
None
}
} else {
if v == 0xF78 {
Some(vec!['\u{FB3}', '\u{F80}'])
} else {
None
}
}
} else {
if v < 0xF93 {
if v == 0xF81 {
Some(vec!['\u{F71}', '\u{F80}'])
} else {
None
}
} else {
if v == 0xF93 {
Some(vec!['\u{F92}', '\u{FB7}'])
} else {
None
}
}
}
} else {
if v < 0xFA7 {
if v < 0xFA2 {
if v == 0xF9D {
Some(vec!['\u{F9C}', '\u{FB7}'])
} else {
None
}
} else {
if v == 0xFA2 {
Some(vec!['\u{FA1}', '\u{FB7}'])
} else {
None
}
}
} else {
if v < 0xFAC {
if v == 0xFA7 {
Some(vec!['\u{FA6}', '\u{FB7}'])
} else {
None
}
} else {
if v == 0xFAC {
Some(vec!['\u{FAB}', '\u{FB7}'])
} else {
None
}
}
}
}
}
} else {
if v < 0x1B3B {
if v < 0x1B0A {
if v < 0x1B06 {
if v < 0x1026 {
if v == 0xFB9 {
Some(vec!['\u{F90}', '\u{FB5}'])
} else {
None
}
} else {
if v == 0x1026 {
Some(vec!['\u{1025}', '\u{102E}'])
} else {
None
}
}
} else {
if v < 0x1B08 {
if v == 0x1B06 {
Some(vec!['\u{1B05}', '\u{1B35}'])
} else {
None
}
} else {
if v == 0x1B08 {
Some(vec!['\u{1B07}', '\u{1B35}'])
} else {
None
}
}
}
} else {
if v < 0x1B0E {
if v < 0x1B0C {
if v == 0x1B0A {
Some(vec!['\u{1B09}', '\u{1B35}'])
} else {
None
}
} else {
if v == 0x1B0C {
Some(vec!['\u{1B0B}', '\u{1B35}'])
} else {
None
}
}
} else {
if v < 0x1B12 {
if v == 0x1B0E {
Some(vec!['\u{1B0D}', '\u{1B35}'])
} else {
None
}
} else {
if v == 0x1B12 {
Some(vec!['\u{1B11}', '\u{1B35}'])
} else {
None
}
}
}
}
} else {
if v < 0x1B43 {
if v < 0x1B40 {
if v < 0x1B3D {
if v == 0x1B3B {
Some(vec!['\u{1B3A}', '\u{1B35}'])
} else {
None
}
} else {
if v == 0x1B3D {
Some(vec!['\u{1B3C}', '\u{1B35}'])
} else {
None
}
}
} else {
if v < 0x1B41 {
if v == 0x1B40 {
Some(vec!['\u{1B3E}', '\u{1B35}'])
} else {
None
}
} else {
if v == 0x1B41 {
Some(vec!['\u{1B3F}', '\u{1B35}'])
} else {
None
}
}
}
} else {
if v < 0x1E01 {
if v < 0x1E00 {
if v == 0x1B43 {
Some(vec!['\u{1B42}', '\u{1B35}'])
} else {
None
}
} else {
if v == 0x1E00 {
Some(vec!['\u{41}', '\u{325}'])
} else {
None
}
}
} else {
if v < 0x1E02 {
if v == 0x1E01 {
Some(vec!['\u{61}', '\u{325}'])
} else {
None
}
} else {
if v == 0x1E02 {
Some(vec!['\u{42}', '\u{307}'])
} else {
None
}
}
}
}
}
}
} else {
if v < 0x1E13 {
if v < 0x1E0B {
if v < 0x1E07 {
if v < 0x1E05 {
if v < 0x1E04 {
if v == 0x1E03 {
Some(vec!['\u{62}', '\u{307}'])
} else {
None
}
} else {
if v == 0x1E04 {
Some(vec!['\u{42}', '\u{323}'])
} else {
None
}
}
} else {
if v < 0x1E06 {
if v == 0x1E05 {
Some(vec!['\u{62}', '\u{323}'])
} else {
None
}
} else {
if v == 0x1E06 {
Some(vec!['\u{42}', '\u{331}'])
} else {
None
}
}
}
} else {
if v < 0x1E09 {
if v < 0x1E08 {
if v == 0x1E07 {
Some(vec!['\u{62}', '\u{331}'])
} else {
None
}
} else {
if v == 0x1E08 {
Some(vec!['\u{43}', '\u{327}', '\u{301}'])
} else {
None
}
}
} else {
if v < 0x1E0A {
if v == 0x1E09 {
Some(vec!['\u{63}', '\u{327}', '\u{301}'])
} else {
None
}
} else {
if v == 0x1E0A {
Some(vec!['\u{44}', '\u{307}'])
} else {
None
}
}
}
}
} else {
if v < 0x1E0F {
if v < 0x1E0D {
if v < 0x1E0C {
if v == 0x1E0B {
Some(vec!['\u{64}', '\u{307}'])
} else {
None
}
} else {
if v == 0x1E0C {
Some(vec!['\u{44}', '\u{323}'])
} else {
None
}
}
} else {
if v < 0x1E0E {
if v == 0x1E0D {
Some(vec!['\u{64}', '\u{323}'])
} else {
None
}
} else {
if v == 0x1E0E {
Some(vec!['\u{44}', '\u{331}'])
} else {
None
}
}
}
} else {
if v < 0x1E11 {
if v < 0x1E10 {
if v == 0x1E0F {
Some(vec!['\u{64}', '\u{331}'])
} else {
None
}
} else {
if v == 0x1E10 {
Some(vec!['\u{44}', '\u{327}'])
} else {
None
}
}
} else {
if v < 0x1E12 {
if v == 0x1E11 {
Some(vec!['\u{64}', '\u{327}'])
} else {
None
}
} else {
if v == 0x1E12 {
Some(vec!['\u{44}', '\u{32D}'])
} else {
None
}
}
}
}
}
} else {
if v < 0x1E1B {
if v < 0x1E17 {
if v < 0x1E15 {
if v < 0x1E14 {
if v == 0x1E13 {
Some(vec!['\u{64}', '\u{32D}'])
} else {
None
}
} else {
if v == 0x1E14 {
Some(vec!['\u{45}', '\u{304}', '\u{300}'])
} else {
None
}
}
} else {
if v < 0x1E16 {
if v == 0x1E15 {
Some(vec!['\u{65}', '\u{304}', '\u{300}'])
} else {
None
}
} else {
if v == 0x1E16 {
Some(vec!['\u{45}', '\u{304}', '\u{301}'])
} else {
None
}
}
}
} else {
if v < 0x1E19 {
if v < 0x1E18 {
if v == 0x1E17 {
Some(vec!['\u{65}', '\u{304}', '\u{301}'])
} else {
None
}
} else {
if v == 0x1E18 {
Some(vec!['\u{45}', '\u{32D}'])
} else {
None
}
}
} else {
if v < 0x1E1A {
if v == 0x1E19 {
Some(vec!['\u{65}', '\u{32D}'])
} else {
None
}
} else {
if v == 0x1E1A {
Some(vec!['\u{45}', '\u{330}'])
} else {
None
}
}
}
}
} else {
if v < 0x1E1F {
if v < 0x1E1D {
if v < 0x1E1C {
if v == 0x1E1B {
Some(vec!['\u{65}', '\u{330}'])
} else {
None
}
} else {
if v == 0x1E1C {
Some(vec!['\u{45}', '\u{327}', '\u{306}'])
} else {
None
}
}
} else {
if v < 0x1E1E {
if v == 0x1E1D {
Some(vec!['\u{65}', '\u{327}', '\u{306}'])
} else {
None
}
} else {
if v == 0x1E1E {
Some(vec!['\u{46}', '\u{307}'])
} else {
None
}
}
}
} else {
if v < 0x1E21 {
if v < 0x1E20 {
if v == 0x1E1F {
Some(vec!['\u{66}', '\u{307}'])
} else {
None
}
} else {
if v == 0x1E20 {
Some(vec!['\u{47}', '\u{304}'])
} else {
None
}
}
} else {
if v < 0x1E22 {
if v == 0x1E21 {
Some(vec!['\u{67}', '\u{304}'])
} else {
None
}
} else {
if v == 0x1E22 {
Some(vec!['\u{48}', '\u{307}'])
} else {
None
}
}
}
}
}
}
}
} else {
if v < 0x1E43 {
if v < 0x1E33 {
if v < 0x1E2B {
if v < 0x1E27 {
if v < 0x1E25 {
if v < 0x1E24 {
if v == 0x1E23 {
Some(vec!['\u{68}', '\u{307}'])
} else {
None
}
} else {
if v == 0x1E24 {
Some(vec!['\u{48}', '\u{323}'])
} else {
None
}
}
} else {
if v < 0x1E26 {
if v == 0x1E25 {
Some(vec!['\u{68}', '\u{323}'])
} else {
None
}
} else {
if v == 0x1E26 {
Some(vec!['\u{48}', '\u{308}'])
} else {
None
}
}
}
} else {
if v < 0x1E29 {
if v < 0x1E28 {
if v == 0x1E27 {
Some(vec!['\u{68}', '\u{308}'])
} else {
None
}
} else {
if v == 0x1E28 {
Some(vec!['\u{48}', '\u{327}'])
} else {
None
}
}
} else {
if v < 0x1E2A {
if v == 0x1E29 {
Some(vec!['\u{68}', '\u{327}'])
} else {
None
}
} else {
if v == 0x1E2A {
Some(vec!['\u{48}', '\u{32E}'])
} else {
None
}
}
}
}
} else {
if v < 0x1E2F {
if v < 0x1E2D {
if v < 0x1E2C {
if v == 0x1E2B {
Some(vec!['\u{68}', '\u{32E}'])
} else {
None
}
} else {
if v == 0x1E2C {
Some(vec!['\u{49}', '\u{330}'])
} else {
None
}
}
} else {
if v < 0x1E2E {
if v == 0x1E2D {
Some(vec!['\u{69}', '\u{330}'])
} else {
None
}
} else {
if v == 0x1E2E {
Some(vec!['\u{49}', '\u{308}', '\u{301}'])
} else {
None
}
}
}
} else {
if v < 0x1E31 {
if v < 0x1E30 {
if v == 0x1E2F {
Some(vec!['\u{69}', '\u{308}', '\u{301}'])
} else {
None
}
} else {
if v == 0x1E30 {
Some(vec!['\u{4B}', '\u{301}'])
} else {
None
}
}
} else {
if v < 0x1E32 {
if v == 0x1E31 {
Some(vec!['\u{6B}', '\u{301}'])
} else {
None
}
} else {
if v == 0x1E32 {
Some(vec!['\u{4B}', '\u{323}'])
} else {
None
}
}
}
}
}
} else {
if v < 0x1E3B {
if v < 0x1E37 {
if v < 0x1E35 {
if v < 0x1E34 {
if v == 0x1E33 {
Some(vec!['\u{6B}', '\u{323}'])
} else {
None
}
} else {
if v == 0x1E34 {
Some(vec!['\u{4B}', '\u{331}'])
} else {
None
}
}
} else {
if v < 0x1E36 {
if v == 0x1E35 {
Some(vec!['\u{6B}', '\u{331}'])
} else {
None
}
} else {
if v == 0x1E36 {
Some(vec!['\u{4C}', '\u{323}'])
} else {
None
}
}
}
} else {
if v < 0x1E39 {
if v < 0x1E38 {
if v == 0x1E37 {
Some(vec!['\u{6C}', '\u{323}'])
} else {
None
}
} else {
if v == 0x1E38 {
Some(vec!['\u{4C}', '\u{323}', '\u{304}'])
} else {
None
}
}
} else {
if v < 0x1E3A {
if v == 0x1E39 {
Some(vec!['\u{6C}', '\u{323}', '\u{304}'])
} else {
None
}
} else {
if v == 0x1E3A {
Some(vec!['\u{4C}', '\u{331}'])
} else {
None
}
}
}
}
} else {
if v < 0x1E3F {
if v < 0x1E3D {
if v < 0x1E3C {
if v == 0x1E3B {
Some(vec!['\u{6C}', '\u{331}'])
} else {
None
}
} else {
if v == 0x1E3C {
Some(vec!['\u{4C}', '\u{32D}'])
} else {
None
}
}
} else {
if v < 0x1E3E {
if v == 0x1E3D {
Some(vec!['\u{6C}', '\u{32D}'])
} else {
None
}
} else {
if v == 0x1E3E {
Some(vec!['\u{4D}', '\u{301}'])
} else {
None
}
}
}
} else {
if v < 0x1E41 {
if v < 0x1E40 {
if v == 0x1E3F {
Some(vec!['\u{6D}', '\u{301}'])
} else {
None
}
} else {
if v == 0x1E40 {
Some(vec!['\u{4D}', '\u{307}'])
} else {
None
}
}
} else {
if v < 0x1E42 {
if v == 0x1E41 {
Some(vec!['\u{6D}', '\u{307}'])
} else {
None
}
} else {
if v == 0x1E42 {
Some(vec!['\u{4D}', '\u{323}'])
} else {
None
}
}
}
}
}
}
} else {
if v < 0x1E53 {
if v < 0x1E4B {
if v < 0x1E47 {
if v < 0x1E45 {
if v < 0x1E44 {
if v == 0x1E43 {
Some(vec!['\u{6D}', '\u{323}'])
} else {
None
}
} else {
if v == 0x1E44 {
Some(vec!['\u{4E}', '\u{307}'])
} else {
None
}
}
} else {
if v < 0x1E46 {
if v == 0x1E45 {
Some(vec!['\u{6E}', '\u{307}'])
} else {
None
}
} else {
if v == 0x1E46 {
Some(vec!['\u{4E}', '\u{323}'])
} else {
None
}
}
}
} else {
if v < 0x1E49 {
if v < 0x1E48 {
if v == 0x1E47 {
Some(vec!['\u{6E}', '\u{323}'])
} else {
None
}
} else {
if v == 0x1E48 {
Some(vec!['\u{4E}', '\u{331}'])
} else {
None
}
}
} else {
if v < 0x1E4A {
if v == 0x1E49 {
Some(vec!['\u{6E}', '\u{331}'])
} else {
None
}
} else {
if v == 0x1E4A {
Some(vec!['\u{4E}', '\u{32D}'])
} else {
None
}
}
}
}
} else {
if v < 0x1E4F {
if v < 0x1E4D {
if v < 0x1E4C {
if v == 0x1E4B {
Some(vec!['\u{6E}', '\u{32D}'])
} else {
None
}
} else {
if v == 0x1E4C {
Some(vec!['\u{4F}', '\u{303}', '\u{301}'])
} else {
None
}
}
} else {
if v < 0x1E4E {
if v == 0x1E4D {
Some(vec!['\u{6F}', '\u{303}', '\u{301}'])
} else {
None
}
} else {
if v == 0x1E4E {
Some(vec!['\u{4F}', '\u{303}', '\u{308}'])
} else {
None
}
}
}
} else {
if v < 0x1E51 {
if v < 0x1E50 {
if v == 0x1E4F {
Some(vec!['\u{6F}', '\u{303}', '\u{308}'])
} else {
None
}
} else {
if v == 0x1E50 {
Some(vec!['\u{4F}', '\u{304}', '\u{300}'])
} else {
None
}
}
} else {
if v < 0x1E52 {
if v == 0x1E51 {
Some(vec!['\u{6F}', '\u{304}', '\u{300}'])
} else {
None
}
} else {
if v == 0x1E52 {
Some(vec!['\u{4F}', '\u{304}', '\u{301}'])
} else {
None
}
}
}
}
}
} else {
if v < 0x1E5B {
if v < 0x1E57 {
if v < 0x1E55 {
if v < 0x1E54 {
if v == 0x1E53 {
Some(vec!['\u{6F}', '\u{304}', '\u{301}'])
} else {
None
}
} else {
if v == 0x1E54 {
Some(vec!['\u{50}', '\u{301}'])
} else {
None
}
}
} else {
if v < 0x1E56 {
if v == 0x1E55 {
Some(vec!['\u{70}', '\u{301}'])
} else {
None
}
} else {
if v == 0x1E56 {
Some(vec!['\u{50}', '\u{307}'])
} else {
None
}
}
}
} else {
if v < 0x1E59 {
if v < 0x1E58 {
if v == 0x1E57 {
Some(vec!['\u{70}', '\u{307}'])
} else {
None
}
} else {
if v == 0x1E58 {
Some(vec!['\u{52}', '\u{307}'])
} else {
None
}
}
} else {
if v < 0x1E5A {
if v == 0x1E59 {
Some(vec!['\u{72}', '\u{307}'])
} else {
None
}
} else {
if v == 0x1E5A {
Some(vec!['\u{52}', '\u{323}'])
} else {
None
}
}
}
}
} else {
if v < 0x1E5F {
if v < 0x1E5D {
if v < 0x1E5C {
if v == 0x1E5B {
Some(vec!['\u{72}', '\u{323}'])
} else {
None
}
} else {
if v == 0x1E5C {
Some(vec!['\u{52}', '\u{323}', '\u{304}'])
} else {
None
}
}
} else {
if v < 0x1E5E {
if v == 0x1E5D {
Some(vec!['\u{72}', '\u{323}', '\u{304}'])
} else {
None
}
} else {
if v == 0x1E5E {
Some(vec!['\u{52}', '\u{331}'])
} else {
None
}
}
}
} else {
if v < 0x1E61 {
if v < 0x1E60 {
if v == 0x1E5F {
Some(vec!['\u{72}', '\u{331}'])
} else {
None
}
} else {
if v == 0x1E60 {
Some(vec!['\u{53}', '\u{307}'])
} else {
None
}
}
} else {
if v < 0x1E62 {
if v == 0x1E61 {
Some(vec!['\u{73}', '\u{307}'])
} else {
None
}
} else {
if v < 0x1E63 {
if v == 0x1E62 {
Some(vec!['\u{53}', '\u{323}'])
} else {
None
}
} else {
if v == 0x1E63 {
Some(vec!['\u{73}', '\u{323}'])
} else {
None
}
}
}
}
}
}
}
}
}
}
}
} else {
if v < 0x1F7C {
if v < 0x1EE9 {
if v < 0x1EA9 {
if v < 0x1E84 {
if v < 0x1E74 {
if v < 0x1E6C {
if v < 0x1E68 {
if v < 0x1E66 {
if v < 0x1E65 {
if v == 0x1E64 {
Some(vec!['\u{53}', '\u{301}', '\u{307}'])
} else {
None
}
} else {
if v == 0x1E65 {
Some(vec!['\u{73}', '\u{301}', '\u{307}'])
} else {
None
}
}
} else {
if v < 0x1E67 {
if v == 0x1E66 {
Some(vec!['\u{53}', '\u{30C}', '\u{307}'])
} else {
None
}
} else {
if v == 0x1E67 {
Some(vec!['\u{73}', '\u{30C}', '\u{307}'])
} else {
None
}
}
}
} else {
if v < 0x1E6A {
if v < 0x1E69 {
if v == 0x1E68 {
Some(vec!['\u{53}', '\u{323}', '\u{307}'])
} else {
None
}
} else {
if v == 0x1E69 {
Some(vec!['\u{73}', '\u{323}', '\u{307}'])
} else {
None
}
}
} else {
if v < 0x1E6B {
if v == 0x1E6A {
Some(vec!['\u{54}', '\u{307}'])
} else {
None
}
} else {
if v == 0x1E6B {
Some(vec!['\u{74}', '\u{307}'])
} else {
None
}
}
}
}
} else {
if v < 0x1E70 {
if v < 0x1E6E {
if v < 0x1E6D {
if v == 0x1E6C {
Some(vec!['\u{54}', '\u{323}'])
} else {
None
}
} else {
if v == 0x1E6D {
Some(vec!['\u{74}', '\u{323}'])
} else {
None
}
}
} else {
if v < 0x1E6F {
if v == 0x1E6E {
Some(vec!['\u{54}', '\u{331}'])
} else {
None
}
} else {
if v == 0x1E6F {
Some(vec!['\u{74}', '\u{331}'])
} else {
None
}
}
}
} else {
if v < 0x1E72 {
if v < 0x1E71 {
if v == 0x1E70 {
Some(vec!['\u{54}', '\u{32D}'])
} else {
None
}
} else {
if v == 0x1E71 {
Some(vec!['\u{74}', '\u{32D}'])
} else {
None
}
}
} else {
if v < 0x1E73 {
if v == 0x1E72 {
Some(vec!['\u{55}', '\u{324}'])
} else {
None
}
} else {
if v == 0x1E73 {
Some(vec!['\u{75}', '\u{324}'])
} else {
None
}
}
}
}
}
} else {
if v < 0x1E7C {
if v < 0x1E78 {
if v < 0x1E76 {
if v < 0x1E75 {
if v == 0x1E74 {
Some(vec!['\u{55}', '\u{330}'])
} else {
None
}
} else {
if v == 0x1E75 {
Some(vec!['\u{75}', '\u{330}'])
} else {
None
}
}
} else {
if v < 0x1E77 {
if v == 0x1E76 {
Some(vec!['\u{55}', '\u{32D}'])
} else {
None
}
} else {
if v == 0x1E77 {
Some(vec!['\u{75}', '\u{32D}'])
} else {
None
}
}
}
} else {
if v < 0x1E7A {
if v < 0x1E79 {
if v == 0x1E78 {
Some(vec!['\u{55}', '\u{303}', '\u{301}'])
} else {
None
}
} else {
if v == 0x1E79 {
Some(vec!['\u{75}', '\u{303}', '\u{301}'])
} else {
None
}
}
} else {
if v < 0x1E7B {
if v == 0x1E7A {
Some(vec!['\u{55}', '\u{304}', '\u{308}'])
} else {
None
}
} else {
if v == 0x1E7B {
Some(vec!['\u{75}', '\u{304}', '\u{308}'])
} else {
None
}
}
}
}
} else {
if v < 0x1E80 {
if v < 0x1E7E {
if v < 0x1E7D {
if v == 0x1E7C {
Some(vec!['\u{56}', '\u{303}'])
} else {
None
}
} else {
if v == 0x1E7D {
Some(vec!['\u{76}', '\u{303}'])
} else {
None
}
}
} else {
if v < 0x1E7F {
if v == 0x1E7E {
Some(vec!['\u{56}', '\u{323}'])
} else {
None
}
} else {
if v == 0x1E7F {
Some(vec!['\u{76}', '\u{323}'])
} else {
None
}
}
}
} else {
if v < 0x1E82 {
if v < 0x1E81 {
if v == 0x1E80 {
Some(vec!['\u{57}', '\u{300}'])
} else {
None
}
} else {
if v == 0x1E81 {
Some(vec!['\u{77}', '\u{300}'])
} else {
None
}
}
} else {
if v < 0x1E83 {
if v == 0x1E82 {
Some(vec!['\u{57}', '\u{301}'])
} else {
None
}
} else {
if v == 0x1E83 {
Some(vec!['\u{77}', '\u{301}'])
} else {
None
}
}
}
}
}
}
} else {
if v < 0x1E94 {
if v < 0x1E8C {
if v < 0x1E88 {
if v < 0x1E86 {
if v < 0x1E85 {
if v == 0x1E84 {
Some(vec!['\u{57}', '\u{308}'])
} else {
None
}
} else {
if v == 0x1E85 {
Some(vec!['\u{77}', '\u{308}'])
} else {
None
}
}
} else {
if v < 0x1E87 {
if v == 0x1E86 {
Some(vec!['\u{57}', '\u{307}'])
} else {
None
}
} else {
if v == 0x1E87 {
Some(vec!['\u{77}', '\u{307}'])
} else {
None
}
}
}
} else {
if v < 0x1E8A {
if v < 0x1E89 {
if v == 0x1E88 {
Some(vec!['\u{57}', '\u{323}'])
} else {
None
}
} else {
if v == 0x1E89 {
Some(vec!['\u{77}', '\u{323}'])
} else {
None
}
}
} else {
if v < 0x1E8B {
if v == 0x1E8A {
Some(vec!['\u{58}', '\u{307}'])
} else {
None
}
} else {
if v == 0x1E8B {
Some(vec!['\u{78}', '\u{307}'])
} else {
None
}
}
}
}
} else {
if v < 0x1E90 {
if v < 0x1E8E {
if v < 0x1E8D {
if v == 0x1E8C {
Some(vec!['\u{58}', '\u{308}'])
} else {
None
}
} else {
if v == 0x1E8D {
Some(vec!['\u{78}', '\u{308}'])
} else {
None
}
}
} else {
if v < 0x1E8F {
if v == 0x1E8E {
Some(vec!['\u{59}', '\u{307}'])
} else {
None
}
} else {
if v == 0x1E8F {
Some(vec!['\u{79}', '\u{307}'])
} else {
None
}
}
}
} else {
if v < 0x1E92 {
if v < 0x1E91 {
if v == 0x1E90 {
Some(vec!['\u{5A}', '\u{302}'])
} else {
None
}
} else {
if v == 0x1E91 {
Some(vec!['\u{7A}', '\u{302}'])
} else {
None
}
}
} else {
if v < 0x1E93 {
if v == 0x1E92 {
Some(vec!['\u{5A}', '\u{323}'])
} else {
None
}
} else {
if v == 0x1E93 {
Some(vec!['\u{7A}', '\u{323}'])
} else {
None
}
}
}
}
}
} else {
if v < 0x1EA1 {
if v < 0x1E98 {
if v < 0x1E96 {
if v < 0x1E95 {
if v == 0x1E94 {
Some(vec!['\u{5A}', '\u{331}'])
} else {
None
}
} else {
if v == 0x1E95 {
Some(vec!['\u{7A}', '\u{331}'])
} else {
None
}
}
} else {
if v < 0x1E97 {
if v == 0x1E96 {
Some(vec!['\u{68}', '\u{331}'])
} else {
None
}
} else {
if v == 0x1E97 {
Some(vec!['\u{74}', '\u{308}'])
} else {
None
}
}
}
} else {
if v < 0x1E9B {
if v < 0x1E99 {
if v == 0x1E98 {
Some(vec!['\u{77}', '\u{30A}'])
} else {
None
}
} else {
if v == 0x1E99 {
Some(vec!['\u{79}', '\u{30A}'])
} else {
None
}
}
} else {
if v < 0x1EA0 {
if v == 0x1E9B {
Some(vec!['\u{17F}', '\u{307}'])
} else {
None
}
} else {
if v == 0x1EA0 {
Some(vec!['\u{41}', '\u{323}'])
} else {
None
}
}
}
}
} else {
if v < 0x1EA5 {
if v < 0x1EA3 {
if v < 0x1EA2 {
if v == 0x1EA1 {
Some(vec!['\u{61}', '\u{323}'])
} else {
None
}
} else {
if v == 0x1EA2 {
Some(vec!['\u{41}', '\u{309}'])
} else {
None
}
}
} else {
if v < 0x1EA4 {
if v == 0x1EA3 {
Some(vec!['\u{61}', '\u{309}'])
} else {
None
}
} else {
if v == 0x1EA4 {
Some(vec!['\u{41}', '\u{302}', '\u{301}'])
} else {
None
}
}
}
} else {
if v < 0x1EA7 {
if v < 0x1EA6 {
if v == 0x1EA5 {
Some(vec!['\u{61}', '\u{302}', '\u{301}'])
} else {
None
}
} else {
if v == 0x1EA6 {
Some(vec!['\u{41}', '\u{302}', '\u{300}'])
} else {
None
}
}
} else {
if v < 0x1EA8 {
if v == 0x1EA7 {
Some(vec!['\u{61}', '\u{302}', '\u{300}'])
} else {
None
}
} else {
if v == 0x1EA8 {
Some(vec!['\u{41}', '\u{302}', '\u{309}'])
} else {
None
}
}
}
}
}
}
}
} else {
if v < 0x1EC9 {
if v < 0x1EB9 {
if v < 0x1EB1 {
if v < 0x1EAD {
if v < 0x1EAB {
if v < 0x1EAA {
if v == 0x1EA9 {
Some(vec!['\u{61}', '\u{302}', '\u{309}'])
} else {
None
}
} else {
if v == 0x1EAA {
Some(vec!['\u{41}', '\u{302}', '\u{303}'])
} else {
None
}
}
} else {
if v < 0x1EAC {
if v == 0x1EAB {
Some(vec!['\u{61}', '\u{302}', '\u{303}'])
} else {
None
}
} else {
if v == 0x1EAC {
Some(vec!['\u{41}', '\u{323}', '\u{302}'])
} else {
None
}
}
}
} else {
if v < 0x1EAF {
if v < 0x1EAE {
if v == 0x1EAD {
Some(vec!['\u{61}', '\u{323}', '\u{302}'])
} else {
None
}
} else {
if v == 0x1EAE {
Some(vec!['\u{41}', '\u{306}', '\u{301}'])
} else {
None
}
}
} else {
if v < 0x1EB0 {
if v == 0x1EAF {
Some(vec!['\u{61}', '\u{306}', '\u{301}'])
} else {
None
}
} else {
if v == 0x1EB0 {
Some(vec!['\u{41}', '\u{306}', '\u{300}'])
} else {
None
}
}
}
}
} else {
if v < 0x1EB5 {
if v < 0x1EB3 {
if v < 0x1EB2 {
if v == 0x1EB1 {
Some(vec!['\u{61}', '\u{306}', '\u{300}'])
} else {
None
}
} else {
if v == 0x1EB2 {
Some(vec!['\u{41}', '\u{306}', '\u{309}'])
} else {
None
}
}
} else {
if v < 0x1EB4 {
if v == 0x1EB3 {
Some(vec!['\u{61}', '\u{306}', '\u{309}'])
} else {
None
}
} else {
if v == 0x1EB4 {
Some(vec!['\u{41}', '\u{306}', '\u{303}'])
} else {
None
}
}
}
} else {
if v < 0x1EB7 {
if v < 0x1EB6 {
if v == 0x1EB5 {
Some(vec!['\u{61}', '\u{306}', '\u{303}'])
} else {
None
}
} else {
if v == 0x1EB6 {
Some(vec!['\u{41}', '\u{323}', '\u{306}'])
} else {
None
}
}
} else {
if v < 0x1EB8 {
if v == 0x1EB7 {
Some(vec!['\u{61}', '\u{323}', '\u{306}'])
} else {
None
}
} else {
if v == 0x1EB8 {
Some(vec!['\u{45}', '\u{323}'])
} else {
None
}
}
}
}
}
} else {
if v < 0x1EC1 {
if v < 0x1EBD {
if v < 0x1EBB {
if v < 0x1EBA {
if v == 0x1EB9 {
Some(vec!['\u{65}', '\u{323}'])
} else {
None
}
} else {
if v == 0x1EBA {
Some(vec!['\u{45}', '\u{309}'])
} else {
None
}
}
} else {
if v < 0x1EBC {
if v == 0x1EBB {
Some(vec!['\u{65}', '\u{309}'])
} else {
None
}
} else {
if v == 0x1EBC {
Some(vec!['\u{45}', '\u{303}'])
} else {
None
}
}
}
} else {
if v < 0x1EBF {
if v < 0x1EBE {
if v == 0x1EBD {
Some(vec!['\u{65}', '\u{303}'])
} else {
None
}
} else {
if v == 0x1EBE {
Some(vec!['\u{45}', '\u{302}', '\u{301}'])
} else {
None
}
}
} else {
if v < 0x1EC0 {
if v == 0x1EBF {
Some(vec!['\u{65}', '\u{302}', '\u{301}'])
} else {
None
}
} else {
if v == 0x1EC0 {
Some(vec!['\u{45}', '\u{302}', '\u{300}'])
} else {
None
}
}
}
}
} else {
if v < 0x1EC5 {
if v < 0x1EC3 {
if v < 0x1EC2 {
if v == 0x1EC1 {
Some(vec!['\u{65}', '\u{302}', '\u{300}'])
} else {
None
}
} else {
if v == 0x1EC2 {
Some(vec!['\u{45}', '\u{302}', '\u{309}'])
} else {
None
}
}
} else {
if v < 0x1EC4 {
if v == 0x1EC3 {
Some(vec!['\u{65}', '\u{302}', '\u{309}'])
} else {
None
}
} else {
if v == 0x1EC4 {
Some(vec!['\u{45}', '\u{302}', '\u{303}'])
} else {
None
}
}
}
} else {
if v < 0x1EC7 {
if v < 0x1EC6 {
if v == 0x1EC5 {
Some(vec!['\u{65}', '\u{302}', '\u{303}'])
} else {
None
}
} else {
if v == 0x1EC6 {
Some(vec!['\u{45}', '\u{323}', '\u{302}'])
} else {
None
}
}
} else {
if v < 0x1EC8 {
if v == 0x1EC7 {
Some(vec!['\u{65}', '\u{323}', '\u{302}'])
} else {
None
}
} else {
if v == 0x1EC8 {
Some(vec!['\u{49}', '\u{309}'])
} else {
None
}
}
}
}
}
}
} else {
if v < 0x1ED9 {
if v < 0x1ED1 {
if v < 0x1ECD {
if v < 0x1ECB {
if v < 0x1ECA {
if v == 0x1EC9 {
Some(vec!['\u{69}', '\u{309}'])
} else {
None
}
} else {
if v == 0x1ECA {
Some(vec!['\u{49}', '\u{323}'])
} else {
None
}
}
} else {
if v < 0x1ECC {
if v == 0x1ECB {
Some(vec!['\u{69}', '\u{323}'])
} else {
None
}
} else {
if v == 0x1ECC {
Some(vec!['\u{4F}', '\u{323}'])
} else {
None
}
}
}
} else {
if v < 0x1ECF {
if v < 0x1ECE {
if v == 0x1ECD {
Some(vec!['\u{6F}', '\u{323}'])
} else {
None
}
} else {
if v == 0x1ECE {
Some(vec!['\u{4F}', '\u{309}'])
} else {
None
}
}
} else {
if v < 0x1ED0 {
if v == 0x1ECF {
Some(vec!['\u{6F}', '\u{309}'])
} else {
None
}
} else {
if v == 0x1ED0 {
Some(vec!['\u{4F}', '\u{302}', '\u{301}'])
} else {
None
}
}
}
}
} else {
if v < 0x1ED5 {
if v < 0x1ED3 {
if v < 0x1ED2 {
if v == 0x1ED1 {
Some(vec!['\u{6F}', '\u{302}', '\u{301}'])
} else {
None
}
} else {
if v == 0x1ED2 {
Some(vec!['\u{4F}', '\u{302}', '\u{300}'])
} else {
None
}
}
} else {
if v < 0x1ED4 {
if v == 0x1ED3 {
Some(vec!['\u{6F}', '\u{302}', '\u{300}'])
} else {
None
}
} else {
if v == 0x1ED4 {
Some(vec!['\u{4F}', '\u{302}', '\u{309}'])
} else {
None
}
}
}
} else {
if v < 0x1ED7 {
if v < 0x1ED6 {
if v == 0x1ED5 {
Some(vec!['\u{6F}', '\u{302}', '\u{309}'])
} else {
None
}
} else {
if v == 0x1ED6 {
Some(vec!['\u{4F}', '\u{302}', '\u{303}'])
} else {
None
}
}
} else {
if v < 0x1ED8 {
if v == 0x1ED7 {
Some(vec!['\u{6F}', '\u{302}', '\u{303}'])
} else {
None
}
} else {
if v == 0x1ED8 {
Some(vec!['\u{4F}', '\u{323}', '\u{302}'])
} else {
None
}
}
}
}
}
} else {
if v < 0x1EE1 {
if v < 0x1EDD {
if v < 0x1EDB {
if v < 0x1EDA {
if v == 0x1ED9 {
Some(vec!['\u{6F}', '\u{323}', '\u{302}'])
} else {
None
}
} else {
if v == 0x1EDA {
Some(vec!['\u{4F}', '\u{31B}', '\u{301}'])
} else {
None
}
}
} else {
if v < 0x1EDC {
if v == 0x1EDB {
Some(vec!['\u{6F}', '\u{31B}', '\u{301}'])
} else {
None
}
} else {
if v == 0x1EDC {
Some(vec!['\u{4F}', '\u{31B}', '\u{300}'])
} else {
None
}
}
}
} else {
if v < 0x1EDF {
if v < 0x1EDE {
if v == 0x1EDD {
Some(vec!['\u{6F}', '\u{31B}', '\u{300}'])
} else {
None
}
} else {
if v == 0x1EDE {
Some(vec!['\u{4F}', '\u{31B}', '\u{309}'])
} else {
None
}
}
} else {
if v < 0x1EE0 {
if v == 0x1EDF {
Some(vec!['\u{6F}', '\u{31B}', '\u{309}'])
} else {
None
}
} else {
if v == 0x1EE0 {
Some(vec!['\u{4F}', '\u{31B}', '\u{303}'])
} else {
None
}
}
}
}
} else {
if v < 0x1EE5 {
if v < 0x1EE3 {
if v < 0x1EE2 {
if v == 0x1EE1 {
Some(vec!['\u{6F}', '\u{31B}', '\u{303}'])
} else {
None
}
} else {
if v == 0x1EE2 {
Some(vec!['\u{4F}', '\u{31B}', '\u{323}'])
} else {
None
}
}
} else {
if v < 0x1EE4 {
if v == 0x1EE3 {
Some(vec!['\u{6F}', '\u{31B}', '\u{323}'])
} else {
None
}
} else {
if v == 0x1EE4 {
Some(vec!['\u{55}', '\u{323}'])
} else {
None
}
}
}
} else {
if v < 0x1EE7 {
if v < 0x1EE6 {
if v == 0x1EE5 {
Some(vec!['\u{75}', '\u{323}'])
} else {
None
}
} else {
if v == 0x1EE6 {
Some(vec!['\u{55}', '\u{309}'])
} else {
None
}
}
} else {
if v < 0x1EE8 {
if v == 0x1EE7 {
Some(vec!['\u{75}', '\u{309}'])
} else {
None
}
} else {
if v == 0x1EE8 {
Some(vec!['\u{55}', '\u{31B}', '\u{301}'])
} else {
None
}
}
}
}
}
}
}
}
} else {
if v < 0x1F33 {
if v < 0x1F0F {
if v < 0x1EF9 {
if v < 0x1EF1 {
if v < 0x1EED {
if v < 0x1EEB {
if v < 0x1EEA {
if v == 0x1EE9 {
Some(vec!['\u{75}', '\u{31B}', '\u{301}'])
} else {
None
}
} else {
if v == 0x1EEA {
Some(vec!['\u{55}', '\u{31B}', '\u{300}'])
} else {
None
}
}
} else {
if v < 0x1EEC {
if v == 0x1EEB {
Some(vec!['\u{75}', '\u{31B}', '\u{300}'])
} else {
None
}
} else {
if v == 0x1EEC {
Some(vec!['\u{55}', '\u{31B}', '\u{309}'])
} else {
None
}
}
}
} else {
if v < 0x1EEF {
if v < 0x1EEE {
if v == 0x1EED {
Some(vec!['\u{75}', '\u{31B}', '\u{309}'])
} else {
None
}
} else {
if v == 0x1EEE {
Some(vec!['\u{55}', '\u{31B}', '\u{303}'])
} else {
None
}
}
} else {
if v < 0x1EF0 {
if v == 0x1EEF {
Some(vec!['\u{75}', '\u{31B}', '\u{303}'])
} else {
None
}
} else {
if v == 0x1EF0 {
Some(vec!['\u{55}', '\u{31B}', '\u{323}'])
} else {
None
}
}
}
}
} else {
if v < 0x1EF5 {
if v < 0x1EF3 {
if v < 0x1EF2 {
if v == 0x1EF1 {
Some(vec!['\u{75}', '\u{31B}', '\u{323}'])
} else {
None
}
} else {
if v == 0x1EF2 {
Some(vec!['\u{59}', '\u{300}'])
} else {
None
}
}
} else {
if v < 0x1EF4 {
if v == 0x1EF3 {
Some(vec!['\u{79}', '\u{300}'])
} else {
None
}
} else {
if v == 0x1EF4 {
Some(vec!['\u{59}', '\u{323}'])
} else {
None
}
}
}
} else {
if v < 0x1EF7 {
if v < 0x1EF6 {
if v == 0x1EF5 {
Some(vec!['\u{79}', '\u{323}'])
} else {
None
}
} else {
if v == 0x1EF6 {
Some(vec!['\u{59}', '\u{309}'])
} else {
None
}
}
} else {
if v < 0x1EF8 {
if v == 0x1EF7 {
Some(vec!['\u{79}', '\u{309}'])
} else {
None
}
} else {
if v == 0x1EF8 {
Some(vec!['\u{59}', '\u{303}'])
} else {
None
}
}
}
}
}
} else {
if v < 0x1F07 {
if v < 0x1F03 {
if v < 0x1F01 {
if v < 0x1F00 {
if v == 0x1EF9 {
Some(vec!['\u{79}', '\u{303}'])
} else {
None
}
} else {
if v == 0x1F00 {
Some(vec!['\u{3B1}', '\u{313}'])
} else {
None
}
}
} else {
if v < 0x1F02 {
if v == 0x1F01 {
Some(vec!['\u{3B1}', '\u{314}'])
} else {
None
}
} else {
if v == 0x1F02 {
Some(vec!['\u{3B1}', '\u{313}', '\u{300}'])
} else {
None
}
}
}
} else {
if v < 0x1F05 {
if v < 0x1F04 {
if v == 0x1F03 {
Some(vec!['\u{3B1}', '\u{314}', '\u{300}'])
} else {
None
}
} else {
if v == 0x1F04 {
Some(vec!['\u{3B1}', '\u{313}', '\u{301}'])
} else {
None
}
}
} else {
if v < 0x1F06 {
if v == 0x1F05 {
Some(vec!['\u{3B1}', '\u{314}', '\u{301}'])
} else {
None
}
} else {
if v == 0x1F06 {
Some(vec!['\u{3B1}', '\u{313}', '\u{342}'])
} else {
None
}
}
}
}
} else {
if v < 0x1F0B {
if v < 0x1F09 {
if v < 0x1F08 {
if v == 0x1F07 {
Some(vec!['\u{3B1}', '\u{314}', '\u{342}'])
} else {
None
}
} else {
if v == 0x1F08 {
Some(vec!['\u{391}', '\u{313}'])
} else {
None
}
}
} else {
if v < 0x1F0A {
if v == 0x1F09 {
Some(vec!['\u{391}', '\u{314}'])
} else {
None
}
} else {
if v == 0x1F0A {
Some(vec!['\u{391}', '\u{313}', '\u{300}'])
} else {
None
}
}
}
} else {
if v < 0x1F0D {
if v < 0x1F0C {
if v == 0x1F0B {
Some(vec!['\u{391}', '\u{314}', '\u{300}'])
} else {
None
}
} else {
if v == 0x1F0C {
Some(vec!['\u{391}', '\u{313}', '\u{301}'])
} else {
None
}
}
} else {
if v < 0x1F0E {
if v == 0x1F0D {
Some(vec!['\u{391}', '\u{314}', '\u{301}'])
} else {
None
}
} else {
if v == 0x1F0E {
Some(vec!['\u{391}', '\u{313}', '\u{342}'])
} else {
None
}
}
}
}
}
}
} else {
if v < 0x1F23 {
if v < 0x1F19 {
if v < 0x1F13 {
if v < 0x1F11 {
if v < 0x1F10 {
if v == 0x1F0F {
Some(vec!['\u{391}', '\u{314}', '\u{342}'])
} else {
None
}
} else {
if v == 0x1F10 {
Some(vec!['\u{3B5}', '\u{313}'])
} else {
None
}
}
} else {
if v < 0x1F12 {
if v == 0x1F11 {
Some(vec!['\u{3B5}', '\u{314}'])
} else {
None
}
} else {
if v == 0x1F12 {
Some(vec!['\u{3B5}', '\u{313}', '\u{300}'])
} else {
None
}
}
}
} else {
if v < 0x1F15 {
if v < 0x1F14 {
if v == 0x1F13 {
Some(vec!['\u{3B5}', '\u{314}', '\u{300}'])
} else {
None
}
} else {
if v == 0x1F14 {
Some(vec!['\u{3B5}', '\u{313}', '\u{301}'])
} else {
None
}
}
} else {
if v < 0x1F18 {
if v == 0x1F15 {
Some(vec!['\u{3B5}', '\u{314}', '\u{301}'])
} else {
None
}
} else {
if v == 0x1F18 {
Some(vec!['\u{395}', '\u{313}'])
} else {
None
}
}
}
}
} else {
if v < 0x1F1D {
if v < 0x1F1B {
if v < 0x1F1A {
if v == 0x1F19 {
Some(vec!['\u{395}', '\u{314}'])
} else {
None
}
} else {
if v == 0x1F1A {
Some(vec!['\u{395}', '\u{313}', '\u{300}'])
} else {
None
}
}
} else {
if v < 0x1F1C {
if v == 0x1F1B {
Some(vec!['\u{395}', '\u{314}', '\u{300}'])
} else {
None
}
} else {
if v == 0x1F1C {
Some(vec!['\u{395}', '\u{313}', '\u{301}'])
} else {
None
}
}
}
} else {
if v < 0x1F21 {
if v < 0x1F20 {
if v == 0x1F1D {
Some(vec!['\u{395}', '\u{314}', '\u{301}'])
} else {
None
}
} else {
if v == 0x1F20 {
Some(vec!['\u{3B7}', '\u{313}'])
} else {
None
}
}
} else {
if v < 0x1F22 {
if v == 0x1F21 {
Some(vec!['\u{3B7}', '\u{314}'])
} else {
None
}
} else {
if v == 0x1F22 {
Some(vec!['\u{3B7}', '\u{313}', '\u{300}'])
} else {
None
}
}
}
}
}
} else {
if v < 0x1F2B {
if v < 0x1F27 {
if v < 0x1F25 {
if v < 0x1F24 {
if v == 0x1F23 {
Some(vec!['\u{3B7}', '\u{314}', '\u{300}'])
} else {
None
}
} else {
if v == 0x1F24 {
Some(vec!['\u{3B7}', '\u{313}', '\u{301}'])
} else {
None
}
}
} else {
if v < 0x1F26 {
if v == 0x1F25 {
Some(vec!['\u{3B7}', '\u{314}', '\u{301}'])
} else {
None
}
} else {
if v == 0x1F26 {
Some(vec!['\u{3B7}', '\u{313}', '\u{342}'])
} else {
None
}
}
}
} else {
if v < 0x1F29 {
if v < 0x1F28 {
if v == 0x1F27 {
Some(vec!['\u{3B7}', '\u{314}', '\u{342}'])
} else {
None
}
} else {
if v == 0x1F28 {
Some(vec!['\u{397}', '\u{313}'])
} else {
None
}
}
} else {
if v < 0x1F2A {
if v == 0x1F29 {
Some(vec!['\u{397}', '\u{314}'])
} else {
None
}
} else {
if v == 0x1F2A {
Some(vec!['\u{397}', '\u{313}', '\u{300}'])
} else {
None
}
}
}
}
} else {
if v < 0x1F2F {
if v < 0x1F2D {
if v < 0x1F2C {
if v == 0x1F2B {
Some(vec!['\u{397}', '\u{314}', '\u{300}'])
} else {
None
}
} else {
if v == 0x1F2C {
Some(vec!['\u{397}', '\u{313}', '\u{301}'])
} else {
None
}
}
} else {
if v < 0x1F2E {
if v == 0x1F2D {
Some(vec!['\u{397}', '\u{314}', '\u{301}'])
} else {
None
}
} else {
if v == 0x1F2E {
Some(vec!['\u{397}', '\u{313}', '\u{342}'])
} else {
None
}
}
}
} else {
if v < 0x1F31 {
if v < 0x1F30 {
if v == 0x1F2F {
Some(vec!['\u{397}', '\u{314}', '\u{342}'])
} else {
None
}
} else {
if v == 0x1F30 {
Some(vec!['\u{3B9}', '\u{313}'])
} else {
None
}
}
} else {
if v < 0x1F32 {
if v == 0x1F31 {
Some(vec!['\u{3B9}', '\u{314}'])
} else {
None
}
} else {
if v == 0x1F32 {
Some(vec!['\u{3B9}', '\u{313}', '\u{300}'])
} else {
None
}
}
}
}
}
}
}
} else {
if v < 0x1F57 {
if v < 0x1F43 {
if v < 0x1F3B {
if v < 0x1F37 {
if v < 0x1F35 {
if v < 0x1F34 {
if v == 0x1F33 {
Some(vec!['\u{3B9}', '\u{314}', '\u{300}'])
} else {
None
}
} else {
if v == 0x1F34 {
Some(vec!['\u{3B9}', '\u{313}', '\u{301}'])
} else {
None
}
}
} else {
if v < 0x1F36 {
if v == 0x1F35 {
Some(vec!['\u{3B9}', '\u{314}', '\u{301}'])
} else {
None
}
} else {
if v == 0x1F36 {
Some(vec!['\u{3B9}', '\u{313}', '\u{342}'])
} else {
None
}
}
}
} else {
if v < 0x1F39 {
if v < 0x1F38 {
if v == 0x1F37 {
Some(vec!['\u{3B9}', '\u{314}', '\u{342}'])
} else {
None
}
} else {
if v == 0x1F38 {
Some(vec!['\u{399}', '\u{313}'])
} else {
None
}
}
} else {
if v < 0x1F3A {
if v == 0x1F39 {
Some(vec!['\u{399}', '\u{314}'])
} else {
None
}
} else {
if v == 0x1F3A {
Some(vec!['\u{399}', '\u{313}', '\u{300}'])
} else {
None
}
}
}
}
} else {
if v < 0x1F3F {
if v < 0x1F3D {
if v < 0x1F3C {
if v == 0x1F3B {
Some(vec!['\u{399}', '\u{314}', '\u{300}'])
} else {
None
}
} else {
if v == 0x1F3C {
Some(vec!['\u{399}', '\u{313}', '\u{301}'])
} else {
None
}
}
} else {
if v < 0x1F3E {
if v == 0x1F3D {
Some(vec!['\u{399}', '\u{314}', '\u{301}'])
} else {
None
}
} else {
if v == 0x1F3E {
Some(vec!['\u{399}', '\u{313}', '\u{342}'])
} else {
None
}
}
}
} else {
if v < 0x1F41 {
if v < 0x1F40 {
if v == 0x1F3F {
Some(vec!['\u{399}', '\u{314}', '\u{342}'])
} else {
None
}
} else {
if v == 0x1F40 {
Some(vec!['\u{3BF}', '\u{313}'])
} else {
None
}
}
} else {
if v < 0x1F42 {
if v == 0x1F41 {
Some(vec!['\u{3BF}', '\u{314}'])
} else {
None
}
} else {
if v == 0x1F42 {
Some(vec!['\u{3BF}', '\u{313}', '\u{300}'])
} else {
None
}
}
}
}
}
} else {
if v < 0x1F4D {
if v < 0x1F49 {
if v < 0x1F45 {
if v < 0x1F44 {
if v == 0x1F43 {
Some(vec!['\u{3BF}', '\u{314}', '\u{300}'])
} else {
None
}
} else {
if v == 0x1F44 {
Some(vec!['\u{3BF}', '\u{313}', '\u{301}'])
} else {
None
}
}
} else {
if v < 0x1F48 {
if v == 0x1F45 {
Some(vec!['\u{3BF}', '\u{314}', '\u{301}'])
} else {
None
}
} else {
if v == 0x1F48 {
Some(vec!['\u{39F}', '\u{313}'])
} else {
None
}
}
}
} else {
if v < 0x1F4B {
if v < 0x1F4A {
if v == 0x1F49 {
Some(vec!['\u{39F}', '\u{314}'])
} else {
None
}
} else {
if v == 0x1F4A {
Some(vec!['\u{39F}', '\u{313}', '\u{300}'])
} else {
None
}
}
} else {
if v < 0x1F4C {
if v == 0x1F4B {
Some(vec!['\u{39F}', '\u{314}', '\u{300}'])
} else {
None
}
} else {
if v == 0x1F4C {
Some(vec!['\u{39F}', '\u{313}', '\u{301}'])
} else {
None
}
}
}
}
} else {
if v < 0x1F53 {
if v < 0x1F51 {
if v < 0x1F50 {
if v == 0x1F4D {
Some(vec!['\u{39F}', '\u{314}', '\u{301}'])
} else {
None
}
} else {
if v == 0x1F50 {
Some(vec!['\u{3C5}', '\u{313}'])
} else {
None
}
}
} else {
if v < 0x1F52 {
if v == 0x1F51 {
Some(vec!['\u{3C5}', '\u{314}'])
} else {
None
}
} else {
if v == 0x1F52 {
Some(vec!['\u{3C5}', '\u{313}', '\u{300}'])
} else {
None
}
}
}
} else {
if v < 0x1F55 {
if v < 0x1F54 {
if v == 0x1F53 {
Some(vec!['\u{3C5}', '\u{314}', '\u{300}'])
} else {
None
}
} else {
if v == 0x1F54 {
Some(vec!['\u{3C5}', '\u{313}', '\u{301}'])
} else {
None
}
}
} else {
if v < 0x1F56 {
if v == 0x1F55 {
Some(vec!['\u{3C5}', '\u{314}', '\u{301}'])
} else {
None
}
} else {
if v == 0x1F56 {
Some(vec!['\u{3C5}', '\u{313}', '\u{342}'])
} else {
None
}
}
}
}
}
}
} else {
if v < 0x1F6B {
if v < 0x1F63 {
if v < 0x1F5F {
if v < 0x1F5B {
if v < 0x1F59 {
if v == 0x1F57 {
Some(vec!['\u{3C5}', '\u{314}', '\u{342}'])
} else {
None
}
} else {
if v == 0x1F59 {
Some(vec!['\u{3A5}', '\u{314}'])
} else {
None
}
}
} else {
if v < 0x1F5D {
if v == 0x1F5B {
Some(vec!['\u{3A5}', '\u{314}', '\u{300}'])
} else {
None
}
} else {
if v == 0x1F5D {
Some(vec!['\u{3A5}', '\u{314}', '\u{301}'])
} else {
None
}
}
}
} else {
if v < 0x1F61 {
if v < 0x1F60 {
if v == 0x1F5F {
Some(vec!['\u{3A5}', '\u{314}', '\u{342}'])
} else {
None
}
} else {
if v == 0x1F60 {
Some(vec!['\u{3C9}', '\u{313}'])
} else {
None
}
}
} else {
if v < 0x1F62 {
if v == 0x1F61 {
Some(vec!['\u{3C9}', '\u{314}'])
} else {
None
}
} else {
if v == 0x1F62 {
Some(vec!['\u{3C9}', '\u{313}', '\u{300}'])
} else {
None
}
}
}
}
} else {
if v < 0x1F67 {
if v < 0x1F65 {
if v < 0x1F64 {
if v == 0x1F63 {
Some(vec!['\u{3C9}', '\u{314}', '\u{300}'])
} else {
None
}
} else {
if v == 0x1F64 {
Some(vec!['\u{3C9}', '\u{313}', '\u{301}'])
} else {
None
}
}
} else {
if v < 0x1F66 {
if v == 0x1F65 {
Some(vec!['\u{3C9}', '\u{314}', '\u{301}'])
} else {
None
}
} else {
if v == 0x1F66 {
Some(vec!['\u{3C9}', '\u{313}', '\u{342}'])
} else {
None
}
}
}
} else {
if v < 0x1F69 {
if v < 0x1F68 {
if v == 0x1F67 {
Some(vec!['\u{3C9}', '\u{314}', '\u{342}'])
} else {
None
}
} else {
if v == 0x1F68 {
Some(vec!['\u{3A9}', '\u{313}'])
} else {
None
}
}
} else {
if v < 0x1F6A {
if v == 0x1F69 {
Some(vec!['\u{3A9}', '\u{314}'])
} else {
None
}
} else {
if v == 0x1F6A {
Some(vec!['\u{3A9}', '\u{313}', '\u{300}'])
} else {
None
}
}
}
}
}
} else {
if v < 0x1F73 {
if v < 0x1F6F {
if v < 0x1F6D {
if v < 0x1F6C {
if v == 0x1F6B {
Some(vec!['\u{3A9}', '\u{314}', '\u{300}'])
} else {
None
}
} else {
if v == 0x1F6C {
Some(vec!['\u{3A9}', '\u{313}', '\u{301}'])
} else {
None
}
}
} else {
if v < 0x1F6E {
if v == 0x1F6D {
Some(vec!['\u{3A9}', '\u{314}', '\u{301}'])
} else {
None
}
} else {
if v == 0x1F6E {
Some(vec!['\u{3A9}', '\u{313}', '\u{342}'])
} else {
None
}
}
}
} else {
if v < 0x1F71 {
if v < 0x1F70 {
if v == 0x1F6F {
Some(vec!['\u{3A9}', '\u{314}', '\u{342}'])
} else {
None
}
} else {
if v == 0x1F70 {
Some(vec!['\u{3B1}', '\u{300}'])
} else {
None
}
}
} else {
if v < 0x1F72 {
if v == 0x1F71 {
Some(vec!['\u{3B1}', '\u{301}'])
} else {
None
}
} else {
if v == 0x1F72 {
Some(vec!['\u{3B5}', '\u{300}'])
} else {
None
}
}
}
}
} else {
if v < 0x1F77 {
if v < 0x1F75 {
if v < 0x1F74 {
if v == 0x1F73 {
Some(vec!['\u{3B5}', '\u{301}'])
} else {
None
}
} else {
if v == 0x1F74 {
Some(vec!['\u{3B7}', '\u{300}'])
} else {
None
}
}
} else {
if v < 0x1F76 {
if v == 0x1F75 {
Some(vec!['\u{3B7}', '\u{301}'])
} else {
None
}
} else {
if v == 0x1F76 {
Some(vec!['\u{3B9}', '\u{300}'])
} else {
None
}
}
}
} else {
if v < 0x1F79 {
if v < 0x1F78 {
if v == 0x1F77 {
Some(vec!['\u{3B9}', '\u{301}'])
} else {
None
}
} else {
if v == 0x1F78 {
Some(vec!['\u{3BF}', '\u{300}'])
} else {
None
}
}
} else {
if v < 0x1F7A {
if v == 0x1F79 {
Some(vec!['\u{3BF}', '\u{301}'])
} else {
None
}
} else {
if v < 0x1F7B {
if v == 0x1F7A {
Some(vec!['\u{3C5}', '\u{300}'])
} else {
None
}
} else {
if v == 0x1F7B {
Some(vec!['\u{3C5}', '\u{301}'])
} else {
None
}
}
}
}
}
}
}
}
}
}
} else {
if v < 0x2209 {
if v < 0x1FC2 {
if v < 0x1F9E {
if v < 0x1F8E {
if v < 0x1F86 {
if v < 0x1F82 {
if v < 0x1F80 {
if v < 0x1F7D {
if v == 0x1F7C {
Some(vec!['\u{3C9}', '\u{300}'])
} else {
None
}
} else {
if v == 0x1F7D {
Some(vec!['\u{3C9}', '\u{301}'])
} else {
None
}
}
} else {
if v < 0x1F81 {
if v == 0x1F80 {
Some(vec!['\u{3B1}', '\u{313}', '\u{345}'])
} else {
None
}
} else {
if v == 0x1F81 {
Some(vec!['\u{3B1}', '\u{314}', '\u{345}'])
} else {
None
}
}
}
} else {
if v < 0x1F84 {
if v < 0x1F83 {
if v == 0x1F82 {
Some(vec!['\u{3B1}', '\u{313}', '\u{300}', '\u{345}'])
} else {
None
}
} else {
if v == 0x1F83 {
Some(vec!['\u{3B1}', '\u{314}', '\u{300}', '\u{345}'])
} else {
None
}
}
} else {
if v < 0x1F85 {
if v == 0x1F84 {
Some(vec!['\u{3B1}', '\u{313}', '\u{301}', '\u{345}'])
} else {
None
}
} else {
if v == 0x1F85 {
Some(vec!['\u{3B1}', '\u{314}', '\u{301}', '\u{345}'])
} else {
None
}
}
}
}
} else {
if v < 0x1F8A {
if v < 0x1F88 {
if v < 0x1F87 {
if v == 0x1F86 {
Some(vec!['\u{3B1}', '\u{313}', '\u{342}', '\u{345}'])
} else {
None
}
} else {
if v == 0x1F87 {
Some(vec!['\u{3B1}', '\u{314}', '\u{342}', '\u{345}'])
} else {
None
}
}
} else {
if v < 0x1F89 {
if v == 0x1F88 {
Some(vec!['\u{391}', '\u{313}', '\u{345}'])
} else {
None
}
} else {
if v == 0x1F89 {
Some(vec!['\u{391}', '\u{314}', '\u{345}'])
} else {
None
}
}
}
} else {
if v < 0x1F8C {
if v < 0x1F8B {
if v == 0x1F8A {
Some(vec!['\u{391}', '\u{313}', '\u{300}', '\u{345}'])
} else {
None
}
} else {
if v == 0x1F8B {
Some(vec!['\u{391}', '\u{314}', '\u{300}', '\u{345}'])
} else {
None
}
}
} else {
if v < 0x1F8D {
if v == 0x1F8C {
Some(vec!['\u{391}', '\u{313}', '\u{301}', '\u{345}'])
} else {
None
}
} else {
if v == 0x1F8D {
Some(vec!['\u{391}', '\u{314}', '\u{301}', '\u{345}'])
} else {
None
}
}
}
}
}
} else {
if v < 0x1F96 {
if v < 0x1F92 {
if v < 0x1F90 {
if v < 0x1F8F {
if v == 0x1F8E {
Some(vec!['\u{391}', '\u{313}', '\u{342}', '\u{345}'])
} else {
None
}
} else {
if v == 0x1F8F {
Some(vec!['\u{391}', '\u{314}', '\u{342}', '\u{345}'])
} else {
None
}
}
} else {
if v < 0x1F91 {
if v == 0x1F90 {
Some(vec!['\u{3B7}', '\u{313}', '\u{345}'])
} else {
None
}
} else {
if v == 0x1F91 {
Some(vec!['\u{3B7}', '\u{314}', '\u{345}'])
} else {
None
}
}
}
} else {
if v < 0x1F94 {
if v < 0x1F93 {
if v == 0x1F92 {
Some(vec!['\u{3B7}', '\u{313}', '\u{300}', '\u{345}'])
} else {
None
}
} else {
if v == 0x1F93 {
Some(vec!['\u{3B7}', '\u{314}', '\u{300}', '\u{345}'])
} else {
None
}
}
} else {
if v < 0x1F95 {
if v == 0x1F94 {
Some(vec!['\u{3B7}', '\u{313}', '\u{301}', '\u{345}'])
} else {
None
}
} else {
if v == 0x1F95 {
Some(vec!['\u{3B7}', '\u{314}', '\u{301}', '\u{345}'])
} else {
None
}
}
}
}
} else {
if v < 0x1F9A {
if v < 0x1F98 {
if v < 0x1F97 {
if v == 0x1F96 {
Some(vec!['\u{3B7}', '\u{313}', '\u{342}', '\u{345}'])
} else {
None
}
} else {
if v == 0x1F97 {
Some(vec!['\u{3B7}', '\u{314}', '\u{342}', '\u{345}'])
} else {
None
}
}
} else {
if v < 0x1F99 {
if v == 0x1F98 {
Some(vec!['\u{397}', '\u{313}', '\u{345}'])
} else {
None
}
} else {
if v == 0x1F99 {
Some(vec!['\u{397}', '\u{314}', '\u{345}'])
} else {
None
}
}
}
} else {
if v < 0x1F9C {
if v < 0x1F9B {
if v == 0x1F9A {
Some(vec!['\u{397}', '\u{313}', '\u{300}', '\u{345}'])
} else {
None
}
} else {
if v == 0x1F9B {
Some(vec!['\u{397}', '\u{314}', '\u{300}', '\u{345}'])
} else {
None
}
}
} else {
if v < 0x1F9D {
if v == 0x1F9C {
Some(vec!['\u{397}', '\u{313}', '\u{301}', '\u{345}'])
} else {
None
}
} else {
if v == 0x1F9D {
Some(vec!['\u{397}', '\u{314}', '\u{301}', '\u{345}'])
} else {
None
}
}
}
}
}
}
} else {
if v < 0x1FAE {
if v < 0x1FA6 {
if v < 0x1FA2 {
if v < 0x1FA0 {
if v < 0x1F9F {
if v == 0x1F9E {
Some(vec!['\u{397}', '\u{313}', '\u{342}', '\u{345}'])
} else {
None
}
} else {
if v == 0x1F9F {
Some(vec!['\u{397}', '\u{314}', '\u{342}', '\u{345}'])
} else {
None
}
}
} else {
if v < 0x1FA1 {
if v == 0x1FA0 {
Some(vec!['\u{3C9}', '\u{313}', '\u{345}'])
} else {
None
}
} else {
if v == 0x1FA1 {
Some(vec!['\u{3C9}', '\u{314}', '\u{345}'])
} else {
None
}
}
}
} else {
if v < 0x1FA4 {
if v < 0x1FA3 {
if v == 0x1FA2 {
Some(vec!['\u{3C9}', '\u{313}', '\u{300}', '\u{345}'])
} else {
None
}
} else {
if v == 0x1FA3 {
Some(vec!['\u{3C9}', '\u{314}', '\u{300}', '\u{345}'])
} else {
None
}
}
} else {
if v < 0x1FA5 {
if v == 0x1FA4 {
Some(vec!['\u{3C9}', '\u{313}', '\u{301}', '\u{345}'])
} else {
None
}
} else {
if v == 0x1FA5 {
Some(vec!['\u{3C9}', '\u{314}', '\u{301}', '\u{345}'])
} else {
None
}
}
}
}
} else {
if v < 0x1FAA {
if v < 0x1FA8 {
if v < 0x1FA7 {
if v == 0x1FA6 {
Some(vec!['\u{3C9}', '\u{313}', '\u{342}', '\u{345}'])
} else {
None
}
} else {
if v == 0x1FA7 {
Some(vec!['\u{3C9}', '\u{314}', '\u{342}', '\u{345}'])
} else {
None
}
}
} else {
if v < 0x1FA9 {
if v == 0x1FA8 {
Some(vec!['\u{3A9}', '\u{313}', '\u{345}'])
} else {
None
}
} else {
if v == 0x1FA9 {
Some(vec!['\u{3A9}', '\u{314}', '\u{345}'])
} else {
None
}
}
}
} else {
if v < 0x1FAC {
if v < 0x1FAB {
if v == 0x1FAA {
Some(vec!['\u{3A9}', '\u{313}', '\u{300}', '\u{345}'])
} else {
None
}
} else {
if v == 0x1FAB {
Some(vec!['\u{3A9}', '\u{314}', '\u{300}', '\u{345}'])
} else {
None
}
}
} else {
if v < 0x1FAD {
if v == 0x1FAC {
Some(vec!['\u{3A9}', '\u{313}', '\u{301}', '\u{345}'])
} else {
None
}
} else {
if v == 0x1FAD {
Some(vec!['\u{3A9}', '\u{314}', '\u{301}', '\u{345}'])
} else {
None
}
}
}
}
}
} else {
if v < 0x1FB7 {
if v < 0x1FB2 {
if v < 0x1FB0 {
if v < 0x1FAF {
if v == 0x1FAE {
Some(vec!['\u{3A9}', '\u{313}', '\u{342}', '\u{345}'])
} else {
None
}
} else {
if v == 0x1FAF {
Some(vec!['\u{3A9}', '\u{314}', '\u{342}', '\u{345}'])
} else {
None
}
}
} else {
if v < 0x1FB1 {
if v == 0x1FB0 {
Some(vec!['\u{3B1}', '\u{306}'])
} else {
None
}
} else {
if v == 0x1FB1 {
Some(vec!['\u{3B1}', '\u{304}'])
} else {
None
}
}
}
} else {
if v < 0x1FB4 {
if v < 0x1FB3 {
if v == 0x1FB2 {
Some(vec!['\u{3B1}', '\u{300}', '\u{345}'])
} else {
None
}
} else {
if v == 0x1FB3 {
Some(vec!['\u{3B1}', '\u{345}'])
} else {
None
}
}
} else {
if v < 0x1FB6 {
if v == 0x1FB4 {
Some(vec!['\u{3B1}', '\u{301}', '\u{345}'])
} else {
None
}
} else {
if v == 0x1FB6 {
Some(vec!['\u{3B1}', '\u{342}'])
} else {
None
}
}
}
}
} else {
if v < 0x1FBB {
if v < 0x1FB9 {
if v < 0x1FB8 {
if v == 0x1FB7 {
Some(vec!['\u{3B1}', '\u{342}', '\u{345}'])
} else {
None
}
} else {
if v == 0x1FB8 {
Some(vec!['\u{391}', '\u{306}'])
} else {
None
}
}
} else {
if v < 0x1FBA {
if v == 0x1FB9 {
Some(vec!['\u{391}', '\u{304}'])
} else {
None
}
} else {
if v == 0x1FBA {
Some(vec!['\u{391}', '\u{300}'])
} else {
None
}
}
}
} else {
if v < 0x1FBE {
if v < 0x1FBC {
if v == 0x1FBB {
Some(vec!['\u{391}', '\u{301}'])
} else {
None
}
} else {
if v == 0x1FBC {
Some(vec!['\u{391}', '\u{345}'])
} else {
None
}
}
} else {
if v < 0x1FC1 {
if v == 0x1FBE {
Some(vec!['\u{3B9}'])
} else {
None
}
} else {
if v == 0x1FC1 {
Some(vec!['\u{A8}', '\u{342}'])
} else {
None
}
}
}
}
}
}
}
} else {
if v < 0x1FE6 {
if v < 0x1FD3 {
if v < 0x1FCB {
if v < 0x1FC7 {
if v < 0x1FC4 {
if v < 0x1FC3 {
if v == 0x1FC2 {
Some(vec!['\u{3B7}', '\u{300}', '\u{345}'])
} else {
None
}
} else {
if v == 0x1FC3 {
Some(vec!['\u{3B7}', '\u{345}'])
} else {
None
}
}
} else {
if v < 0x1FC6 {
if v == 0x1FC4 {
Some(vec!['\u{3B7}', '\u{301}', '\u{345}'])
} else {
None
}
} else {
if v == 0x1FC6 {
Some(vec!['\u{3B7}', '\u{342}'])
} else {
None
}
}
}
} else {
if v < 0x1FC9 {
if v < 0x1FC8 {
if v == 0x1FC7 {
Some(vec!['\u{3B7}', '\u{342}', '\u{345}'])
} else {
None
}
} else {
if v == 0x1FC8 {
Some(vec!['\u{395}', '\u{300}'])
} else {
None
}
}
} else {
if v < 0x1FCA {
if v == 0x1FC9 {
Some(vec!['\u{395}', '\u{301}'])
} else {
None
}
} else {
if v == 0x1FCA {
Some(vec!['\u{397}', '\u{300}'])
} else {
None
}
}
}
}
} else {
if v < 0x1FCF {
if v < 0x1FCD {
if v < 0x1FCC {
if v == 0x1FCB {
Some(vec!['\u{397}', '\u{301}'])
} else {
None
}
} else {
if v == 0x1FCC {
Some(vec!['\u{397}', '\u{345}'])
} else {
None
}
}
} else {
if v < 0x1FCE {
if v == 0x1FCD {
Some(vec!['\u{1FBF}', '\u{300}'])
} else {
None
}
} else {
if v == 0x1FCE {
Some(vec!['\u{1FBF}', '\u{301}'])
} else {
None
}
}
}
} else {
if v < 0x1FD1 {
if v < 0x1FD0 {
if v == 0x1FCF {
Some(vec!['\u{1FBF}', '\u{342}'])
} else {
None
}
} else {
if v == 0x1FD0 {
Some(vec!['\u{3B9}', '\u{306}'])
} else {
None
}
}
} else {
if v < 0x1FD2 {
if v == 0x1FD1 {
Some(vec!['\u{3B9}', '\u{304}'])
} else {
None
}
} else {
if v == 0x1FD2 {
Some(vec!['\u{3B9}', '\u{308}', '\u{300}'])
} else {
None
}
}
}
}
}
} else {
if v < 0x1FDE {
if v < 0x1FD9 {
if v < 0x1FD7 {
if v < 0x1FD6 {
if v == 0x1FD3 {
Some(vec!['\u{3B9}', '\u{308}', '\u{301}'])
} else {
None
}
} else {
if v == 0x1FD6 {
Some(vec!['\u{3B9}', '\u{342}'])
} else {
None
}
}
} else {
if v < 0x1FD8 {
if v == 0x1FD7 {
Some(vec!['\u{3B9}', '\u{308}', '\u{342}'])
} else {
None
}
} else {
if v == 0x1FD8 {
Some(vec!['\u{399}', '\u{306}'])
} else {
None
}
}
}
} else {
if v < 0x1FDB {
if v < 0x1FDA {
if v == 0x1FD9 {
Some(vec!['\u{399}', '\u{304}'])
} else {
None
}
} else {
if v == 0x1FDA {
Some(vec!['\u{399}', '\u{300}'])
} else {
None
}
}
} else {
if v < 0x1FDD {
if v == 0x1FDB {
Some(vec!['\u{399}', '\u{301}'])
} else {
None
}
} else {
if v == 0x1FDD {
Some(vec!['\u{1FFE}', '\u{300}'])
} else {
None
}
}
}
}
} else {
if v < 0x1FE2 {
if v < 0x1FE0 {
if v < 0x1FDF {
if v == 0x1FDE {
Some(vec!['\u{1FFE}', '\u{301}'])
} else {
None
}
} else {
if v == 0x1FDF {
Some(vec!['\u{1FFE}', '\u{342}'])
} else {
None
}
}
} else {
if v < 0x1FE1 {
if v == 0x1FE0 {
Some(vec!['\u{3C5}', '\u{306}'])
} else {
None
}
} else {
if v == 0x1FE1 {
Some(vec!['\u{3C5}', '\u{304}'])
} else {
None
}
}
}
} else {
if v < 0x1FE4 {
if v < 0x1FE3 {
if v == 0x1FE2 {
Some(vec!['\u{3C5}', '\u{308}', '\u{300}'])
} else {
None
}
} else {
if v == 0x1FE3 {
Some(vec!['\u{3C5}', '\u{308}', '\u{301}'])
} else {
None
}
}
} else {
if v < 0x1FE5 {
if v == 0x1FE4 {
Some(vec!['\u{3C1}', '\u{313}'])
} else {
None
}
} else {
if v == 0x1FE5 {
Some(vec!['\u{3C1}', '\u{314}'])
} else {
None
}
}
}
}
}
}
} else {
if v < 0x1FF9 {
if v < 0x1FEE {
if v < 0x1FEA {
if v < 0x1FE8 {
if v < 0x1FE7 {
if v == 0x1FE6 {
Some(vec!['\u{3C5}', '\u{342}'])
} else {
None
}
} else {
if v == 0x1FE7 {
Some(vec!['\u{3C5}', '\u{308}', '\u{342}'])
} else {
None
}
}
} else {
if v < 0x1FE9 {
if v == 0x1FE8 {
Some(vec!['\u{3A5}', '\u{306}'])
} else {
None
}
} else {
if v == 0x1FE9 {
Some(vec!['\u{3A5}', '\u{304}'])
} else {
None
}
}
}
} else {
if v < 0x1FEC {
if v < 0x1FEB {
if v == 0x1FEA {
Some(vec!['\u{3A5}', '\u{300}'])
} else {
None
}
} else {
if v == 0x1FEB {
Some(vec!['\u{3A5}', '\u{301}'])
} else {
None
}
}
} else {
if v < 0x1FED {
if v == 0x1FEC {
Some(vec!['\u{3A1}', '\u{314}'])
} else {
None
}
} else {
if v == 0x1FED {
Some(vec!['\u{A8}', '\u{300}'])
} else {
None
}
}
}
}
} else {
if v < 0x1FF4 {
if v < 0x1FF2 {
if v < 0x1FEF {
if v == 0x1FEE {
Some(vec!['\u{A8}', '\u{301}'])
} else {
None
}
} else {
if v == 0x1FEF {
Some(vec!['\u{60}'])
} else {
None
}
}
} else {
if v < 0x1FF3 {
if v == 0x1FF2 {
Some(vec!['\u{3C9}', '\u{300}', '\u{345}'])
} else {
None
}
} else {
if v == 0x1FF3 {
Some(vec!['\u{3C9}', '\u{345}'])
} else {
None
}
}
}
} else {
if v < 0x1FF7 {
if v < 0x1FF6 {
if v == 0x1FF4 {
Some(vec!['\u{3C9}', '\u{301}', '\u{345}'])
} else {
None
}
} else {
if v == 0x1FF6 {
Some(vec!['\u{3C9}', '\u{342}'])
} else {
None
}
}
} else {
if v < 0x1FF8 {
if v == 0x1FF7 {
Some(vec!['\u{3C9}', '\u{342}', '\u{345}'])
} else {
None
}
} else {
if v == 0x1FF8 {
Some(vec!['\u{39F}', '\u{300}'])
} else {
None
}
}
}
}
}
} else {
if v < 0x212A {
if v < 0x1FFD {
if v < 0x1FFB {
if v < 0x1FFA {
if v == 0x1FF9 {
Some(vec!['\u{39F}', '\u{301}'])
} else {
None
}
} else {
if v == 0x1FFA {
Some(vec!['\u{3A9}', '\u{300}'])
} else {
None
}
}
} else {
if v < 0x1FFC {
if v == 0x1FFB {
Some(vec!['\u{3A9}', '\u{301}'])
} else {
None
}
} else {
if v == 0x1FFC {
Some(vec!['\u{3A9}', '\u{345}'])
} else {
None
}
}
}
} else {
if v < 0x2001 {
if v < 0x2000 {
if v == 0x1FFD {
Some(vec!['\u{B4}'])
} else {
None
}
} else {
if v == 0x2000 {
Some(vec!['\u{2002}'])
} else {
None
}
}
} else {
if v < 0x2126 {
if v == 0x2001 {
Some(vec!['\u{2003}'])
} else {
None
}
} else {
if v == 0x2126 {
Some(vec!['\u{3A9}'])
} else {
None
}
}
}
}
} else {
if v < 0x21AE {
if v < 0x219A {
if v < 0x212B {
if v == 0x212A {
Some(vec!['\u{4B}'])
} else {
None
}
} else {
if v == 0x212B {
Some(vec!['\u{41}', '\u{30A}'])
} else {
None
}
}
} else {
if v < 0x219B {
if v == 0x219A {
Some(vec!['\u{2190}', '\u{338}'])
} else {
None
}
} else {
if v == 0x219B {
Some(vec!['\u{2192}', '\u{338}'])
} else {
None
}
}
}
} else {
if v < 0x21CE {
if v < 0x21CD {
if v == 0x21AE {
Some(vec!['\u{2194}', '\u{338}'])
} else {
None
}
} else {
if v == 0x21CD {
Some(vec!['\u{21D0}', '\u{338}'])
} else {
None
}
}
} else {
if v < 0x21CF {
if v == 0x21CE {
Some(vec!['\u{21D4}', '\u{338}'])
} else {
None
}
} else {
if v < 0x2204 {
if v == 0x21CF {
Some(vec!['\u{21D2}', '\u{338}'])
} else {
None
}
} else {
if v == 0x2204 {
Some(vec!['\u{2203}', '\u{338}'])
} else {
None
}
}
}
}
}
}
}
}
}
} else {
if v < 0x307D {
if v < 0x22E3 {
if v < 0x2275 {
if v < 0x2260 {
if v < 0x2241 {
if v < 0x2224 {
if v < 0x220C {
if v == 0x2209 {
Some(vec!['\u{2208}', '\u{338}'])
} else {
None
}
} else {
if v == 0x220C {
Some(vec!['\u{220B}', '\u{338}'])
} else {
None
}
}
} else {
if v < 0x2226 {
if v == 0x2224 {
Some(vec!['\u{2223}', '\u{338}'])
} else {
None
}
} else {
if v == 0x2226 {
Some(vec!['\u{2225}', '\u{338}'])
} else {
None
}
}
}
} else {
if v < 0x2247 {
if v < 0x2244 {
if v == 0x2241 {
Some(vec!['\u{223C}', '\u{338}'])
} else {
None
}
} else {
if v == 0x2244 {
Some(vec!['\u{2243}', '\u{338}'])
} else {
None
}
}
} else {
if v < 0x2249 {
if v == 0x2247 {
Some(vec!['\u{2245}', '\u{338}'])
} else {
None
}
} else {
if v == 0x2249 {
Some(vec!['\u{2248}', '\u{338}'])
} else {
None
}
}
}
}
} else {
if v < 0x226F {
if v < 0x226D {
if v < 0x2262 {
if v == 0x2260 {
Some(vec!['\u{3D}', '\u{338}'])
} else {
None
}
} else {
if v == 0x2262 {
Some(vec!['\u{2261}', '\u{338}'])
} else {
None
}
}
} else {
if v < 0x226E {
if v == 0x226D {
Some(vec!['\u{224D}', '\u{338}'])
} else {
None
}
} else {
if v == 0x226E {
Some(vec!['\u{3C}', '\u{338}'])
} else {
None
}
}
}
} else {
if v < 0x2271 {
if v < 0x2270 {
if v == 0x226F {
Some(vec!['\u{3E}', '\u{338}'])
} else {
None
}
} else {
if v == 0x2270 {
Some(vec!['\u{2264}', '\u{338}'])
} else {
None
}
}
} else {
if v < 0x2274 {
if v == 0x2271 {
Some(vec!['\u{2265}', '\u{338}'])
} else {
None
}
} else {
if v == 0x2274 {
Some(vec!['\u{2272}', '\u{338}'])
} else {
None
}
}
}
}
}
} else {
if v < 0x2289 {
if v < 0x2281 {
if v < 0x2279 {
if v < 0x2278 {
if v == 0x2275 {
Some(vec!['\u{2273}', '\u{338}'])
} else {
None
}
} else {
if v == 0x2278 {
Some(vec!['\u{2276}', '\u{338}'])
} else {
None
}
}
} else {
if v < 0x2280 {
if v == 0x2279 {
Some(vec!['\u{2277}', '\u{338}'])
} else {
None
}
} else {
if v == 0x2280 {
Some(vec!['\u{227A}', '\u{338}'])
} else {
None
}
}
}
} else {
if v < 0x2285 {
if v < 0x2284 {
if v == 0x2281 {
Some(vec!['\u{227B}', '\u{338}'])
} else {
None
}
} else {
if v == 0x2284 {
Some(vec!['\u{2282}', '\u{338}'])
} else {
None
}
}
} else {
if v < 0x2288 {
if v == 0x2285 {
Some(vec!['\u{2283}', '\u{338}'])
} else {
None
}
} else {
if v == 0x2288 {
Some(vec!['\u{2286}', '\u{338}'])
} else {
None
}
}
}
}
} else {
if v < 0x22AF {
if v < 0x22AD {
if v < 0x22AC {
if v == 0x2289 {
Some(vec!['\u{2287}', '\u{338}'])
} else {
None
}
} else {
if v == 0x22AC {
Some(vec!['\u{22A2}', '\u{338}'])
} else {
None
}
}
} else {
if v < 0x22AE {
if v == 0x22AD {
Some(vec!['\u{22A8}', '\u{338}'])
} else {
None
}
} else {
if v == 0x22AE {
Some(vec!['\u{22A9}', '\u{338}'])
} else {
None
}
}
}
} else {
if v < 0x22E1 {
if v < 0x22E0 {
if v == 0x22AF {
Some(vec!['\u{22AB}', '\u{338}'])
} else {
None
}
} else {
if v == 0x22E0 {
Some(vec!['\u{227C}', '\u{338}'])
} else {
None
}
}
} else {
if v < 0x22E2 {
if v == 0x22E1 {
Some(vec!['\u{227D}', '\u{338}'])
} else {
None
}
} else {
if v == 0x22E2 {
Some(vec!['\u{2291}', '\u{338}'])
} else {
None
}
}
}
}
}
}
} else {
if v < 0x305C {
if v < 0x304C {
if v < 0x22ED {
if v < 0x22EB {
if v < 0x22EA {
if v == 0x22E3 {
Some(vec!['\u{2292}', '\u{338}'])
} else {
None
}
} else {
if v == 0x22EA {
Some(vec!['\u{22B2}', '\u{338}'])
} else {
None
}
}
} else {
if v < 0x22EC {
if v == 0x22EB {
Some(vec!['\u{22B3}', '\u{338}'])
} else {
None
}
} else {
if v == 0x22EC {
Some(vec!['\u{22B4}', '\u{338}'])
} else {
None
}
}
}
} else {
if v < 0x232A {
if v < 0x2329 {
if v == 0x22ED {
Some(vec!['\u{22B5}', '\u{338}'])
} else {
None
}
} else {
if v == 0x2329 {
Some(vec!['\u{3008}'])
} else {
None
}
}
} else {
if v < 0x2ADC {
if v == 0x232A {
Some(vec!['\u{3009}'])
} else {
None
}
} else {
if v == 0x2ADC {
Some(vec!['\u{2ADD}', '\u{338}'])
} else {
None
}
}
}
}
} else {
if v < 0x3054 {
if v < 0x3050 {
if v < 0x304E {
if v == 0x304C {
Some(vec!['\u{304B}', '\u{3099}'])
} else {
None
}
} else {
if v == 0x304E {
Some(vec!['\u{304D}', '\u{3099}'])
} else {
None
}
}
} else {
if v < 0x3052 {
if v == 0x3050 {
Some(vec!['\u{304F}', '\u{3099}'])
} else {
None
}
} else {
if v == 0x3052 {
Some(vec!['\u{3051}', '\u{3099}'])
} else {
None
}
}
}
} else {
if v < 0x3058 {
if v < 0x3056 {
if v == 0x3054 {
Some(vec!['\u{3053}', '\u{3099}'])
} else {
None
}
} else {
if v == 0x3056 {
Some(vec!['\u{3055}', '\u{3099}'])
} else {
None
}
}
} else {
if v < 0x305A {
if v == 0x3058 {
Some(vec!['\u{3057}', '\u{3099}'])
} else {
None
}
} else {
if v == 0x305A {
Some(vec!['\u{3059}', '\u{3099}'])
} else {
None
}
}
}
}
}
} else {
if v < 0x3071 {
if v < 0x3065 {
if v < 0x3060 {
if v < 0x305E {
if v == 0x305C {
Some(vec!['\u{305B}', '\u{3099}'])
} else {
None
}
} else {
if v == 0x305E {
Some(vec!['\u{305D}', '\u{3099}'])
} else {
None
}
}
} else {
if v < 0x3062 {
if v == 0x3060 {
Some(vec!['\u{305F}', '\u{3099}'])
} else {
None
}
} else {
if v == 0x3062 {
Some(vec!['\u{3061}', '\u{3099}'])
} else {
None
}
}
}
} else {
if v < 0x3069 {
if v < 0x3067 {
if v == 0x3065 {
Some(vec!['\u{3064}', '\u{3099}'])
} else {
None
}
} else {
if v == 0x3067 {
Some(vec!['\u{3066}', '\u{3099}'])
} else {
None
}
}
} else {
if v < 0x3070 {
if v == 0x3069 {
Some(vec!['\u{3068}', '\u{3099}'])
} else {
None
}
} else {
if v == 0x3070 {
Some(vec!['\u{306F}', '\u{3099}'])
} else {
None
}
}
}
}
} else {
if v < 0x3077 {
if v < 0x3074 {
if v < 0x3073 {
if v == 0x3071 {
Some(vec!['\u{306F}', '\u{309A}'])
} else {
None
}
} else {
if v == 0x3073 {
Some(vec!['\u{3072}', '\u{3099}'])
} else {
None
}
}
} else {
if v < 0x3076 {
if v == 0x3074 {
Some(vec!['\u{3072}', '\u{309A}'])
} else {
None
}
} else {
if v == 0x3076 {
Some(vec!['\u{3075}', '\u{3099}'])
} else {
None
}
}
}
} else {
if v < 0x307A {
if v < 0x3079 {
if v == 0x3077 {
Some(vec!['\u{3075}', '\u{309A}'])
} else {
None
}
} else {
if v == 0x3079 {
Some(vec!['\u{3078}', '\u{3099}'])
} else {
None
}
}
} else {
if v < 0x307C {
if v == 0x307A {
Some(vec!['\u{3078}', '\u{309A}'])
} else {
None
}
} else {
if v == 0x307C {
Some(vec!['\u{307B}', '\u{3099}'])
} else {
None
}
}
}
}
}
}
}
} else {
if v < 0x30FA {
if v < 0x30C7 {
if v < 0x30B6 {
if v < 0x30AE {
if v < 0x309E {
if v < 0x3094 {
if v == 0x307D {
Some(vec!['\u{307B}', '\u{309A}'])
} else {
None
}
} else {
if v == 0x3094 {
Some(vec!['\u{3046}', '\u{3099}'])
} else {
None
}
}
} else {
if v < 0x30AC {
if v == 0x309E {
Some(vec!['\u{309D}', '\u{3099}'])
} else {
None
}
} else {
if v == 0x30AC {
Some(vec!['\u{30AB}', '\u{3099}'])
} else {
None
}
}
}
} else {
if v < 0x30B2 {
if v < 0x30B0 {
if v == 0x30AE {
Some(vec!['\u{30AD}', '\u{3099}'])
} else {
None
}
} else {
if v == 0x30B0 {
Some(vec!['\u{30AF}', '\u{3099}'])
} else {
None
}
}
} else {
if v < 0x30B4 {
if v == 0x30B2 {
Some(vec!['\u{30B1}', '\u{3099}'])
} else {
None
}
} else {
if v == 0x30B4 {
Some(vec!['\u{30B3}', '\u{3099}'])
} else {
None
}
}
}
}
} else {
if v < 0x30BE {
if v < 0x30BA {
if v < 0x30B8 {
if v == 0x30B6 {
Some(vec!['\u{30B5}', '\u{3099}'])
} else {
None
}
} else {
if v == 0x30B8 {
Some(vec!['\u{30B7}', '\u{3099}'])
} else {
None
}
}
} else {
if v < 0x30BC {
if v == 0x30BA {
Some(vec!['\u{30B9}', '\u{3099}'])
} else {
None
}
} else {
if v == 0x30BC {
Some(vec!['\u{30BB}', '\u{3099}'])
} else {
None
}
}
}
} else {
if v < 0x30C2 {
if v < 0x30C0 {
if v == 0x30BE {
Some(vec!['\u{30BD}', '\u{3099}'])
} else {
None
}
} else {
if v == 0x30C0 {
Some(vec!['\u{30BF}', '\u{3099}'])
} else {
None
}
}
} else {
if v < 0x30C5 {
if v == 0x30C2 {
Some(vec!['\u{30C1}', '\u{3099}'])
} else {
None
}
} else {
if v == 0x30C5 {
Some(vec!['\u{30C4}', '\u{3099}'])
} else {
None
}
}
}
}
}
} else {
if v < 0x30D9 {
if v < 0x30D3 {
if v < 0x30D0 {
if v < 0x30C9 {
if v == 0x30C7 {
Some(vec!['\u{30C6}', '\u{3099}'])
} else {
None
}
} else {
if v == 0x30C9 {
Some(vec!['\u{30C8}', '\u{3099}'])
} else {
None
}
}
} else {
if v < 0x30D1 {
if v == 0x30D0 {
Some(vec!['\u{30CF}', '\u{3099}'])
} else {
None
}
} else {
if v == 0x30D1 {
Some(vec!['\u{30CF}', '\u{309A}'])
} else {
None
}
}
}
} else {
if v < 0x30D6 {
if v < 0x30D4 {
if v == 0x30D3 {
Some(vec!['\u{30D2}', '\u{3099}'])
} else {
None
}
} else {
if v == 0x30D4 {
Some(vec!['\u{30D2}', '\u{309A}'])
} else {
None
}
}
} else {
if v < 0x30D7 {
if v == 0x30D6 {
Some(vec!['\u{30D5}', '\u{3099}'])
} else {
None
}
} else {
if v == 0x30D7 {
Some(vec!['\u{30D5}', '\u{309A}'])
} else {
None
}
}
}
}
} else {
if v < 0x30F4 {
if v < 0x30DC {
if v < 0x30DA {
if v == 0x30D9 {
Some(vec!['\u{30D8}', '\u{3099}'])
} else {
None
}
} else {
if v == 0x30DA {
Some(vec!['\u{30D8}', '\u{309A}'])
} else {
None
}
}
} else {
if v < 0x30DD {
if v == 0x30DC {
Some(vec!['\u{30DB}', '\u{3099}'])
} else {
None
}
} else {
if v == 0x30DD {
Some(vec!['\u{30DB}', '\u{309A}'])
} else {
None
}
}
}
} else {
if v < 0x30F8 {
if v < 0x30F7 {
if v == 0x30F4 {
Some(vec!['\u{30A6}', '\u{3099}'])
} else {
None
}
} else {
if v == 0x30F7 {
Some(vec!['\u{30EF}', '\u{3099}'])
} else {
None
}
}
} else {
if v < 0x30F9 {
if v == 0x30F8 {
Some(vec!['\u{30F0}', '\u{3099}'])
} else {
None
}
} else {
if v == 0x30F9 {
Some(vec!['\u{30F1}', '\u{3099}'])
} else {
None
}
}
}
}
}
}
} else {
if v < 0xF90E {
if v < 0xF906 {
if v < 0xF902 {
if v < 0xF900 {
if v < 0x30FE {
if v == 0x30FA {
Some(vec!['\u{30F2}', '\u{3099}'])
} else {
None
}
} else {
if v == 0x30FE {
Some(vec!['\u{30FD}', '\u{3099}'])
} else {
None
}
}
} else {
if v < 0xF901 {
if v == 0xF900 {
Some(vec!['\u{8C48}'])
} else {
None
}
} else {
if v == 0xF901 {
Some(vec!['\u{66F4}'])
} else {
None
}
}
}
} else {
if v < 0xF904 {
if v < 0xF903 {
if v == 0xF902 {
Some(vec!['\u{8ECA}'])
} else {
None
}
} else {
if v == 0xF903 {
Some(vec!['\u{8CC8}'])
} else {
None
}
}
} else {
if v < 0xF905 {
if v == 0xF904 {
Some(vec!['\u{6ED1}'])
} else {
None
}
} else {
if v == 0xF905 {
Some(vec!['\u{4E32}'])
} else {
None
}
}
}
}
} else {
if v < 0xF90A {
if v < 0xF908 {
if v < 0xF907 {
if v == 0xF906 {
Some(vec!['\u{53E5}'])
} else {
None
}
} else {
if v == 0xF907 {
Some(vec!['\u{9F9C}'])
} else {
None
}
}
} else {
if v < 0xF909 {
if v == 0xF908 {
Some(vec!['\u{9F9C}'])
} else {
None
}
} else {
if v == 0xF909 {
Some(vec!['\u{5951}'])
} else {
None
}
}
}
} else {
if v < 0xF90C {
if v < 0xF90B {
if v == 0xF90A {
Some(vec!['\u{91D1}'])
} else {
None
}
} else {
if v == 0xF90B {
Some(vec!['\u{5587}'])
} else {
None
}
}
} else {
if v < 0xF90D {
if v == 0xF90C {
Some(vec!['\u{5948}'])
} else {
None
}
} else {
if v == 0xF90D {
Some(vec!['\u{61F6}'])
} else {
None
}
}
}
}
}
} else {
if v < 0xF916 {
if v < 0xF912 {
if v < 0xF910 {
if v < 0xF90F {
if v == 0xF90E {
Some(vec!['\u{7669}'])
} else {
None
}
} else {
if v == 0xF90F {
Some(vec!['\u{7F85}'])
} else {
None
}
}
} else {
if v < 0xF911 {
if v == 0xF910 {
Some(vec!['\u{863F}'])
} else {
None
}
} else {
if v == 0xF911 {
Some(vec!['\u{87BA}'])
} else {
None
}
}
}
} else {
if v < 0xF914 {
if v < 0xF913 {
if v == 0xF912 {
Some(vec!['\u{88F8}'])
} else {
None
}
} else {
if v == 0xF913 {
Some(vec!['\u{908F}'])
} else {
None
}
}
} else {
if v < 0xF915 {
if v == 0xF914 {
Some(vec!['\u{6A02}'])
} else {
None
}
} else {
if v == 0xF915 {
Some(vec!['\u{6D1B}'])
} else {
None
}
}
}
}
} else {
if v < 0xF91A {
if v < 0xF918 {
if v < 0xF917 {
if v == 0xF916 {
Some(vec!['\u{70D9}'])
} else {
None
}
} else {
if v == 0xF917 {
Some(vec!['\u{73DE}'])
} else {
None
}
}
} else {
if v < 0xF919 {
if v == 0xF918 {
Some(vec!['\u{843D}'])
} else {
None
}
} else {
if v == 0xF919 {
Some(vec!['\u{916A}'])
} else {
None
}
}
}
} else {
if v < 0xF91C {
if v < 0xF91B {
if v == 0xF91A {
Some(vec!['\u{99F1}'])
} else {
None
}
} else {
if v == 0xF91B {
Some(vec!['\u{4E82}'])
} else {
None
}
}
} else {
if v < 0xF91D {
if v == 0xF91C {
Some(vec!['\u{5375}'])
} else {
None
}
} else {
if v < 0xF91E {
if v == 0xF91D {
Some(vec!['\u{6B04}'])
} else {
None
}
} else {
if v == 0xF91E {
Some(vec!['\u{721B}'])
} else {
None
}
}
}
}
}
}
}
}
}
}
}
}
} else {
if v < 0x2F81A {
if v < 0xFA2C {
if v < 0xF99F {
if v < 0xF95F {
if v < 0xF93F {
if v < 0xF92F {
if v < 0xF927 {
if v < 0xF923 {
if v < 0xF921 {
if v < 0xF920 {
if v == 0xF91F {
Some(vec!['\u{862D}'])
} else {
None
}
} else {
if v == 0xF920 {
Some(vec!['\u{9E1E}'])
} else {
None
}
}
} else {
if v < 0xF922 {
if v == 0xF921 {
Some(vec!['\u{5D50}'])
} else {
None
}
} else {
if v == 0xF922 {
Some(vec!['\u{6FEB}'])
} else {
None
}
}
}
} else {
if v < 0xF925 {
if v < 0xF924 {
if v == 0xF923 {
Some(vec!['\u{85CD}'])
} else {
None
}
} else {
if v == 0xF924 {
Some(vec!['\u{8964}'])
} else {
None
}
}
} else {
if v < 0xF926 {
if v == 0xF925 {
Some(vec!['\u{62C9}'])
} else {
None
}
} else {
if v == 0xF926 {
Some(vec!['\u{81D8}'])
} else {
None
}
}
}
}
} else {
if v < 0xF92B {
if v < 0xF929 {
if v < 0xF928 {
if v == 0xF927 {
Some(vec!['\u{881F}'])
} else {
None
}
} else {
if v == 0xF928 {
Some(vec!['\u{5ECA}'])
} else {
None
}
}
} else {
if v < 0xF92A {
if v == 0xF929 {
Some(vec!['\u{6717}'])
} else {
None
}
} else {
if v == 0xF92A {
Some(vec!['\u{6D6A}'])
} else {
None
}
}
}
} else {
if v < 0xF92D {
if v < 0xF92C {
if v == 0xF92B {
Some(vec!['\u{72FC}'])
} else {
None
}
} else {
if v == 0xF92C {
Some(vec!['\u{90CE}'])
} else {
None
}
}
} else {
if v < 0xF92E {
if v == 0xF92D {
Some(vec!['\u{4F86}'])
} else {
None
}
} else {
if v == 0xF92E {
Some(vec!['\u{51B7}'])
} else {
None
}
}
}
}
}
} else {
if v < 0xF937 {
if v < 0xF933 {
if v < 0xF931 {
if v < 0xF930 {
if v == 0xF92F {
Some(vec!['\u{52DE}'])
} else {
None
}
} else {
if v == 0xF930 {
Some(vec!['\u{64C4}'])
} else {
None
}
}
} else {
if v < 0xF932 {
if v == 0xF931 {
Some(vec!['\u{6AD3}'])
} else {
None
}
} else {
if v == 0xF932 {
Some(vec!['\u{7210}'])
} else {
None
}
}
}
} else {
if v < 0xF935 {
if v < 0xF934 {
if v == 0xF933 {
Some(vec!['\u{76E7}'])
} else {
None
}
} else {
if v == 0xF934 {
Some(vec!['\u{8001}'])
} else {
None
}
}
} else {
if v < 0xF936 {
if v == 0xF935 {
Some(vec!['\u{8606}'])
} else {
None
}
} else {
if v == 0xF936 {
Some(vec!['\u{865C}'])
} else {
None
}
}
}
}
} else {
if v < 0xF93B {
if v < 0xF939 {
if v < 0xF938 {
if v == 0xF937 {
Some(vec!['\u{8DEF}'])
} else {
None
}
} else {
if v == 0xF938 {
Some(vec!['\u{9732}'])
} else {
None
}
}
} else {
if v < 0xF93A {
if v == 0xF939 {
Some(vec!['\u{9B6F}'])
} else {
None
}
} else {
if v == 0xF93A {
Some(vec!['\u{9DFA}'])
} else {
None
}
}
}
} else {
if v < 0xF93D {
if v < 0xF93C {
if v == 0xF93B {
Some(vec!['\u{788C}'])
} else {
None
}
} else {
if v == 0xF93C {
Some(vec!['\u{797F}'])
} else {
None
}
}
} else {
if v < 0xF93E {
if v == 0xF93D {
Some(vec!['\u{7DA0}'])
} else {
None
}
} else {
if v == 0xF93E {
Some(vec!['\u{83C9}'])
} else {
None
}
}
}
}
}
}
} else {
if v < 0xF94F {
if v < 0xF947 {
if v < 0xF943 {
if v < 0xF941 {
if v < 0xF940 {
if v == 0xF93F {
Some(vec!['\u{9304}'])
} else {
None
}
} else {
if v == 0xF940 {
Some(vec!['\u{9E7F}'])
} else {
None
}
}
} else {
if v < 0xF942 {
if v == 0xF941 {
Some(vec!['\u{8AD6}'])
} else {
None
}
} else {
if v == 0xF942 {
Some(vec!['\u{58DF}'])
} else {
None
}
}
}
} else {
if v < 0xF945 {
if v < 0xF944 {
if v == 0xF943 {
Some(vec!['\u{5F04}'])
} else {
None
}
} else {
if v == 0xF944 {
Some(vec!['\u{7C60}'])
} else {
None
}
}
} else {
if v < 0xF946 {
if v == 0xF945 {
Some(vec!['\u{807E}'])
} else {
None
}
} else {
if v == 0xF946 {
Some(vec!['\u{7262}'])
} else {
None
}
}
}
}
} else {
if v < 0xF94B {
if v < 0xF949 {
if v < 0xF948 {
if v == 0xF947 {
Some(vec!['\u{78CA}'])
} else {
None
}
} else {
if v == 0xF948 {
Some(vec!['\u{8CC2}'])
} else {
None
}
}
} else {
if v < 0xF94A {
if v == 0xF949 {
Some(vec!['\u{96F7}'])
} else {
None
}
} else {
if v == 0xF94A {
Some(vec!['\u{58D8}'])
} else {
None
}
}
}
} else {
if v < 0xF94D {
if v < 0xF94C {
if v == 0xF94B {
Some(vec!['\u{5C62}'])
} else {
None
}
} else {
if v == 0xF94C {
Some(vec!['\u{6A13}'])
} else {
None
}
}
} else {
if v < 0xF94E {
if v == 0xF94D {
Some(vec!['\u{6DDA}'])
} else {
None
}
} else {
if v == 0xF94E {
Some(vec!['\u{6F0F}'])
} else {
None
}
}
}
}
}
} else {
if v < 0xF957 {
if v < 0xF953 {
if v < 0xF951 {
if v < 0xF950 {
if v == 0xF94F {
Some(vec!['\u{7D2F}'])
} else {
None
}
} else {
if v == 0xF950 {
Some(vec!['\u{7E37}'])
} else {
None
}
}
} else {
if v < 0xF952 {
if v == 0xF951 {
Some(vec!['\u{964B}'])
} else {
None
}
} else {
if v == 0xF952 {
Some(vec!['\u{52D2}'])
} else {
None
}
}
}
} else {
if v < 0xF955 {
if v < 0xF954 {
if v == 0xF953 {
Some(vec!['\u{808B}'])
} else {
None
}
} else {
if v == 0xF954 {
Some(vec!['\u{51DC}'])
} else {
None
}
}
} else {
if v < 0xF956 {
if v == 0xF955 {
Some(vec!['\u{51CC}'])
} else {
None
}
} else {
if v == 0xF956 {
Some(vec!['\u{7A1C}'])
} else {
None
}
}
}
}
} else {
if v < 0xF95B {
if v < 0xF959 {
if v < 0xF958 {
if v == 0xF957 {
Some(vec!['\u{7DBE}'])
} else {
None
}
} else {
if v == 0xF958 {
Some(vec!['\u{83F1}'])
} else {
None
}
}
} else {
if v < 0xF95A {
if v == 0xF959 {
Some(vec!['\u{9675}'])
} else {
None
}
} else {
if v == 0xF95A {
Some(vec!['\u{8B80}'])
} else {
None
}
}
}
} else {
if v < 0xF95D {
if v < 0xF95C {
if v == 0xF95B {
Some(vec!['\u{62CF}'])
} else {
None
}
} else {
if v == 0xF95C {
Some(vec!['\u{6A02}'])
} else {
None
}
}
} else {
if v < 0xF95E {
if v == 0xF95D {
Some(vec!['\u{8AFE}'])
} else {
None
}
} else {
if v == 0xF95E {
Some(vec!['\u{4E39}'])
} else {
None
}
}
}
}
}
}
}
} else {
if v < 0xF97F {
if v < 0xF96F {
if v < 0xF967 {
if v < 0xF963 {
if v < 0xF961 {
if v < 0xF960 {
if v == 0xF95F {
Some(vec!['\u{5BE7}'])
} else {
None
}
} else {
if v == 0xF960 {
Some(vec!['\u{6012}'])
} else {
None
}
}
} else {
if v < 0xF962 {
if v == 0xF961 {
Some(vec!['\u{7387}'])
} else {
None
}
} else {
if v == 0xF962 {
Some(vec!['\u{7570}'])
} else {
None
}
}
}
} else {
if v < 0xF965 {
if v < 0xF964 {
if v == 0xF963 {
Some(vec!['\u{5317}'])
} else {
None
}
} else {
if v == 0xF964 {
Some(vec!['\u{78FB}'])
} else {
None
}
}
} else {
if v < 0xF966 {
if v == 0xF965 {
Some(vec!['\u{4FBF}'])
} else {
None
}
} else {
if v == 0xF966 {
Some(vec!['\u{5FA9}'])
} else {
None
}
}
}
}
} else {
if v < 0xF96B {
if v < 0xF969 {
if v < 0xF968 {
if v == 0xF967 {
Some(vec!['\u{4E0D}'])
} else {
None
}
} else {
if v == 0xF968 {
Some(vec!['\u{6CCC}'])
} else {
None
}
}
} else {
if v < 0xF96A {
if v == 0xF969 {
Some(vec!['\u{6578}'])
} else {
None
}
} else {
if v == 0xF96A {
Some(vec!['\u{7D22}'])
} else {
None
}
}
}
} else {
if v < 0xF96D {
if v < 0xF96C {
if v == 0xF96B {
Some(vec!['\u{53C3}'])
} else {
None
}
} else {
if v == 0xF96C {
Some(vec!['\u{585E}'])
} else {
None
}
}
} else {
if v < 0xF96E {
if v == 0xF96D {
Some(vec!['\u{7701}'])
} else {
None
}
} else {
if v == 0xF96E {
Some(vec!['\u{8449}'])
} else {
None
}
}
}
}
}
} else {
if v < 0xF977 {
if v < 0xF973 {
if v < 0xF971 {
if v < 0xF970 {
if v == 0xF96F {
Some(vec!['\u{8AAA}'])
} else {
None
}
} else {
if v == 0xF970 {
Some(vec!['\u{6BBA}'])
} else {
None
}
}
} else {
if v < 0xF972 {
if v == 0xF971 {
Some(vec!['\u{8FB0}'])
} else {
None
}
} else {
if v == 0xF972 {
Some(vec!['\u{6C88}'])
} else {
None
}
}
}
} else {
if v < 0xF975 {
if v < 0xF974 {
if v == 0xF973 {
Some(vec!['\u{62FE}'])
} else {
None
}
} else {
if v == 0xF974 {
Some(vec!['\u{82E5}'])
} else {
None
}
}
} else {
if v < 0xF976 {
if v == 0xF975 {
Some(vec!['\u{63A0}'])
} else {
None
}
} else {
if v == 0xF976 {
Some(vec!['\u{7565}'])
} else {
None
}
}
}
}
} else {
if v < 0xF97B {
if v < 0xF979 {
if v < 0xF978 {
if v == 0xF977 {
Some(vec!['\u{4EAE}'])
} else {
None
}
} else {
if v == 0xF978 {
Some(vec!['\u{5169}'])
} else {
None
}
}
} else {
if v < 0xF97A {
if v == 0xF979 {
Some(vec!['\u{51C9}'])
} else {
None
}
} else {
if v == 0xF97A {
Some(vec!['\u{6881}'])
} else {
None
}
}
}
} else {
if v < 0xF97D {
if v < 0xF97C {
if v == 0xF97B {
Some(vec!['\u{7CE7}'])
} else {
None
}
} else {
if v == 0xF97C {
Some(vec!['\u{826F}'])
} else {
None
}
}
} else {
if v < 0xF97E {
if v == 0xF97D {
Some(vec!['\u{8AD2}'])
} else {
None
}
} else {
if v == 0xF97E {
Some(vec!['\u{91CF}'])
} else {
None
}
}
}
}
}
}
} else {
if v < 0xF98F {
if v < 0xF987 {
if v < 0xF983 {
if v < 0xF981 {
if v < 0xF980 {
if v == 0xF97F {
Some(vec!['\u{52F5}'])
} else {
None
}
} else {
if v == 0xF980 {
Some(vec!['\u{5442}'])
} else {
None
}
}
} else {
if v < 0xF982 {
if v == 0xF981 {
Some(vec!['\u{5973}'])
} else {
None
}
} else {
if v == 0xF982 {
Some(vec!['\u{5EEC}'])
} else {
None
}
}
}
} else {
if v < 0xF985 {
if v < 0xF984 {
if v == 0xF983 {
Some(vec!['\u{65C5}'])
} else {
None
}
} else {
if v == 0xF984 {
Some(vec!['\u{6FFE}'])
} else {
None
}
}
} else {
if v < 0xF986 {
if v == 0xF985 {
Some(vec!['\u{792A}'])
} else {
None
}
} else {
if v == 0xF986 {
Some(vec!['\u{95AD}'])
} else {
None
}
}
}
}
} else {
if v < 0xF98B {
if v < 0xF989 {
if v < 0xF988 {
if v == 0xF987 {
Some(vec!['\u{9A6A}'])
} else {
None
}
} else {
if v == 0xF988 {
Some(vec!['\u{9E97}'])
} else {
None
}
}
} else {
if v < 0xF98A {
if v == 0xF989 {
Some(vec!['\u{9ECE}'])
} else {
None
}
} else {
if v == 0xF98A {
Some(vec!['\u{529B}'])
} else {
None
}
}
}
} else {
if v < 0xF98D {
if v < 0xF98C {
if v == 0xF98B {
Some(vec!['\u{66C6}'])
} else {
None
}
} else {
if v == 0xF98C {
Some(vec!['\u{6B77}'])
} else {
None
}
}
} else {
if v < 0xF98E {
if v == 0xF98D {
Some(vec!['\u{8F62}'])
} else {
None
}
} else {
if v == 0xF98E {
Some(vec!['\u{5E74}'])
} else {
None
}
}
}
}
}
} else {
if v < 0xF997 {
if v < 0xF993 {
if v < 0xF991 {
if v < 0xF990 {
if v == 0xF98F {
Some(vec!['\u{6190}'])
} else {
None
}
} else {
if v == 0xF990 {
Some(vec!['\u{6200}'])
} else {
None
}
}
} else {
if v < 0xF992 {
if v == 0xF991 {
Some(vec!['\u{649A}'])
} else {
None
}
} else {
if v == 0xF992 {
Some(vec!['\u{6F23}'])
} else {
None
}
}
}
} else {
if v < 0xF995 {
if v < 0xF994 {
if v == 0xF993 {
Some(vec!['\u{7149}'])
} else {
None
}
} else {
if v == 0xF994 {
Some(vec!['\u{7489}'])
} else {
None
}
}
} else {
if v < 0xF996 {
if v == 0xF995 {
Some(vec!['\u{79CA}'])
} else {
None
}
} else {
if v == 0xF996 {
Some(vec!['\u{7DF4}'])
} else {
None
}
}
}
}
} else {
if v < 0xF99B {
if v < 0xF999 {
if v < 0xF998 {
if v == 0xF997 {
Some(vec!['\u{806F}'])
} else {
None
}
} else {
if v == 0xF998 {
Some(vec!['\u{8F26}'])
} else {
None
}
}
} else {
if v < 0xF99A {
if v == 0xF999 {
Some(vec!['\u{84EE}'])
} else {
None
}
} else {
if v == 0xF99A {
Some(vec!['\u{9023}'])
} else {
None
}
}
}
} else {
if v < 0xF99D {
if v < 0xF99C {
if v == 0xF99B {
Some(vec!['\u{934A}'])
} else {
None
}
} else {
if v == 0xF99C {
Some(vec!['\u{5217}'])
} else {
None
}
}
} else {
if v < 0xF99E {
if v == 0xF99D {
Some(vec!['\u{52A3}'])
} else {
None
}
} else {
if v == 0xF99E {
Some(vec!['\u{54BD}'])
} else {
None
}
}
}
}
}
}
}
}
} else {
if v < 0xF9DF {
if v < 0xF9BF {
if v < 0xF9AF {
if v < 0xF9A7 {
if v < 0xF9A3 {
if v < 0xF9A1 {
if v < 0xF9A0 {
if v == 0xF99F {
Some(vec!['\u{70C8}'])
} else {
None
}
} else {
if v == 0xF9A0 {
Some(vec!['\u{88C2}'])
} else {
None
}
}
} else {
if v < 0xF9A2 {
if v == 0xF9A1 {
Some(vec!['\u{8AAA}'])
} else {
None
}
} else {
if v == 0xF9A2 {
Some(vec!['\u{5EC9}'])
} else {
None
}
}
}
} else {
if v < 0xF9A5 {
if v < 0xF9A4 {
if v == 0xF9A3 {
Some(vec!['\u{5FF5}'])
} else {
None
}
} else {
if v == 0xF9A4 {
Some(vec!['\u{637B}'])
} else {
None
}
}
} else {
if v < 0xF9A6 {
if v == 0xF9A5 {
Some(vec!['\u{6BAE}'])
} else {
None
}
} else {
if v == 0xF9A6 {
Some(vec!['\u{7C3E}'])
} else {
None
}
}
}
}
} else {
if v < 0xF9AB {
if v < 0xF9A9 {
if v < 0xF9A8 {
if v == 0xF9A7 {
Some(vec!['\u{7375}'])
} else {
None
}
} else {
if v == 0xF9A8 {
Some(vec!['\u{4EE4}'])
} else {
None
}
}
} else {
if v < 0xF9AA {
if v == 0xF9A9 {
Some(vec!['\u{56F9}'])
} else {
None
}
} else {
if v == 0xF9AA {
Some(vec!['\u{5BE7}'])
} else {
None
}
}
}
} else {
if v < 0xF9AD {
if v < 0xF9AC {
if v == 0xF9AB {
Some(vec!['\u{5DBA}'])
} else {
None
}
} else {
if v == 0xF9AC {
Some(vec!['\u{601C}'])
} else {
None
}
}
} else {
if v < 0xF9AE {
if v == 0xF9AD {
Some(vec!['\u{73B2}'])
} else {
None
}
} else {
if v == 0xF9AE {
Some(vec!['\u{7469}'])
} else {
None
}
}
}
}
}
} else {
if v < 0xF9B7 {
if v < 0xF9B3 {
if v < 0xF9B1 {
if v < 0xF9B0 {
if v == 0xF9AF {
Some(vec!['\u{7F9A}'])
} else {
None
}
} else {
if v == 0xF9B0 {
Some(vec!['\u{8046}'])
} else {
None
}
}
} else {
if v < 0xF9B2 {
if v == 0xF9B1 {
Some(vec!['\u{9234}'])
} else {
None
}
} else {
if v == 0xF9B2 {
Some(vec!['\u{96F6}'])
} else {
None
}
}
}
} else {
if v < 0xF9B5 {
if v < 0xF9B4 {
if v == 0xF9B3 {
Some(vec!['\u{9748}'])
} else {
None
}
} else {
if v == 0xF9B4 {
Some(vec!['\u{9818}'])
} else {
None
}
}
} else {
if v < 0xF9B6 {
if v == 0xF9B5 {
Some(vec!['\u{4F8B}'])
} else {
None
}
} else {
if v == 0xF9B6 {
Some(vec!['\u{79AE}'])
} else {
None
}
}
}
}
} else {
if v < 0xF9BB {
if v < 0xF9B9 {
if v < 0xF9B8 {
if v == 0xF9B7 {
Some(vec!['\u{91B4}'])
} else {
None
}
} else {
if v == 0xF9B8 {
Some(vec!['\u{96B8}'])
} else {
None
}
}
} else {
if v < 0xF9BA {
if v == 0xF9B9 {
Some(vec!['\u{60E1}'])
} else {
None
}
} else {
if v == 0xF9BA {
Some(vec!['\u{4E86}'])
} else {
None
}
}
}
} else {
if v < 0xF9BD {
if v < 0xF9BC {
if v == 0xF9BB {
Some(vec!['\u{50DA}'])
} else {
None
}
} else {
if v == 0xF9BC {
Some(vec!['\u{5BEE}'])
} else {
None
}
}
} else {
if v < 0xF9BE {
if v == 0xF9BD {
Some(vec!['\u{5C3F}'])
} else {
None
}
} else {
if v == 0xF9BE {
Some(vec!['\u{6599}'])
} else {
None
}
}
}
}
}
}
} else {
if v < 0xF9CF {
if v < 0xF9C7 {
if v < 0xF9C3 {
if v < 0xF9C1 {
if v < 0xF9C0 {
if v == 0xF9BF {
Some(vec!['\u{6A02}'])
} else {
None
}
} else {
if v == 0xF9C0 {
Some(vec!['\u{71CE}'])
} else {
None
}
}
} else {
if v < 0xF9C2 {
if v == 0xF9C1 {
Some(vec!['\u{7642}'])
} else {
None
}
} else {
if v == 0xF9C2 {
Some(vec!['\u{84FC}'])
} else {
None
}
}
}
} else {
if v < 0xF9C5 {
if v < 0xF9C4 {
if v == 0xF9C3 {
Some(vec!['\u{907C}'])
} else {
None
}
} else {
if v == 0xF9C4 {
Some(vec!['\u{9F8D}'])
} else {
None
}
}
} else {
if v < 0xF9C6 {
if v == 0xF9C5 {
Some(vec!['\u{6688}'])
} else {
None
}
} else {
if v == 0xF9C6 {
Some(vec!['\u{962E}'])
} else {
None
}
}
}
}
} else {
if v < 0xF9CB {
if v < 0xF9C9 {
if v < 0xF9C8 {
if v == 0xF9C7 {
Some(vec!['\u{5289}'])
} else {
None
}
} else {
if v == 0xF9C8 {
Some(vec!['\u{677B}'])
} else {
None
}
}
} else {
if v < 0xF9CA {
if v == 0xF9C9 {
Some(vec!['\u{67F3}'])
} else {
None
}
} else {
if v == 0xF9CA {
Some(vec!['\u{6D41}'])
} else {
None
}
}
}
} else {
if v < 0xF9CD {
if v < 0xF9CC {
if v == 0xF9CB {
Some(vec!['\u{6E9C}'])
} else {
None
}
} else {
if v == 0xF9CC {
Some(vec!['\u{7409}'])
} else {
None
}
}
} else {
if v < 0xF9CE {
if v == 0xF9CD {
Some(vec!['\u{7559}'])
} else {
None
}
} else {
if v == 0xF9CE {
Some(vec!['\u{786B}'])
} else {
None
}
}
}
}
}
} else {
if v < 0xF9D7 {
if v < 0xF9D3 {
if v < 0xF9D1 {
if v < 0xF9D0 {
if v == 0xF9CF {
Some(vec!['\u{7D10}'])
} else {
None
}
} else {
if v == 0xF9D0 {
Some(vec!['\u{985E}'])
} else {
None
}
}
} else {
if v < 0xF9D2 {
if v == 0xF9D1 {
Some(vec!['\u{516D}'])
} else {
None
}
} else {
if v == 0xF9D2 {
Some(vec!['\u{622E}'])
} else {
None
}
}
}
} else {
if v < 0xF9D5 {
if v < 0xF9D4 {
if v == 0xF9D3 {
Some(vec!['\u{9678}'])
} else {
None
}
} else {
if v == 0xF9D4 {
Some(vec!['\u{502B}'])
} else {
None
}
}
} else {
if v < 0xF9D6 {
if v == 0xF9D5 {
Some(vec!['\u{5D19}'])
} else {
None
}
} else {
if v == 0xF9D6 {
Some(vec!['\u{6DEA}'])
} else {
None
}
}
}
}
} else {
if v < 0xF9DB {
if v < 0xF9D9 {
if v < 0xF9D8 {
if v == 0xF9D7 {
Some(vec!['\u{8F2A}'])
} else {
None
}
} else {
if v == 0xF9D8 {
Some(vec!['\u{5F8B}'])
} else {
None
}
}
} else {
if v < 0xF9DA {
if v == 0xF9D9 {
Some(vec!['\u{6144}'])
} else {
None
}
} else {
if v == 0xF9DA {
Some(vec!['\u{6817}'])
} else {
None
}
}
}
} else {
if v < 0xF9DD {
if v < 0xF9DC {
if v == 0xF9DB {
Some(vec!['\u{7387}'])
} else {
None
}
} else {
if v == 0xF9DC {
Some(vec!['\u{9686}'])
} else {
None
}
}
} else {
if v < 0xF9DE {
if v == 0xF9DD {
Some(vec!['\u{5229}'])
} else {
None
}
} else {
if v == 0xF9DE {
Some(vec!['\u{540F}'])
} else {
None
}
}
}
}
}
}
}
} else {
if v < 0xF9FF {
if v < 0xF9EF {
if v < 0xF9E7 {
if v < 0xF9E3 {
if v < 0xF9E1 {
if v < 0xF9E0 {
if v == 0xF9DF {
Some(vec!['\u{5C65}'])
} else {
None
}
} else {
if v == 0xF9E0 {
Some(vec!['\u{6613}'])
} else {
None
}
}
} else {
if v < 0xF9E2 {
if v == 0xF9E1 {
Some(vec!['\u{674E}'])
} else {
None
}
} else {
if v == 0xF9E2 {
Some(vec!['\u{68A8}'])
} else {
None
}
}
}
} else {
if v < 0xF9E5 {
if v < 0xF9E4 {
if v == 0xF9E3 {
Some(vec!['\u{6CE5}'])
} else {
None
}
} else {
if v == 0xF9E4 {
Some(vec!['\u{7406}'])
} else {
None
}
}
} else {
if v < 0xF9E6 {
if v == 0xF9E5 {
Some(vec!['\u{75E2}'])
} else {
None
}
} else {
if v == 0xF9E6 {
Some(vec!['\u{7F79}'])
} else {
None
}
}
}
}
} else {
if v < 0xF9EB {
if v < 0xF9E9 {
if v < 0xF9E8 {
if v == 0xF9E7 {
Some(vec!['\u{88CF}'])
} else {
None
}
} else {
if v == 0xF9E8 {
Some(vec!['\u{88E1}'])
} else {
None
}
}
} else {
if v < 0xF9EA {
if v == 0xF9E9 {
Some(vec!['\u{91CC}'])
} else {
None
}
} else {
if v == 0xF9EA {
Some(vec!['\u{96E2}'])
} else {
None
}
}
}
} else {
if v < 0xF9ED {
if v < 0xF9EC {
if v == 0xF9EB {
Some(vec!['\u{533F}'])
} else {
None
}
} else {
if v == 0xF9EC {
Some(vec!['\u{6EBA}'])
} else {
None
}
}
} else {
if v < 0xF9EE {
if v == 0xF9ED {
Some(vec!['\u{541D}'])
} else {
None
}
} else {
if v == 0xF9EE {
Some(vec!['\u{71D0}'])
} else {
None
}
}
}
}
}
} else {
if v < 0xF9F7 {
if v < 0xF9F3 {
if v < 0xF9F1 {
if v < 0xF9F0 {
if v == 0xF9EF {
Some(vec!['\u{7498}'])
} else {
None
}
} else {
if v == 0xF9F0 {
Some(vec!['\u{85FA}'])
} else {
None
}
}
} else {
if v < 0xF9F2 {
if v == 0xF9F1 {
Some(vec!['\u{96A3}'])
} else {
None
}
} else {
if v == 0xF9F2 {
Some(vec!['\u{9C57}'])
} else {
None
}
}
}
} else {
if v < 0xF9F5 {
if v < 0xF9F4 {
if v == 0xF9F3 {
Some(vec!['\u{9E9F}'])
} else {
None
}
} else {
if v == 0xF9F4 {
Some(vec!['\u{6797}'])
} else {
None
}
}
} else {
if v < 0xF9F6 {
if v == 0xF9F5 {
Some(vec!['\u{6DCB}'])
} else {
None
}
} else {
if v == 0xF9F6 {
Some(vec!['\u{81E8}'])
} else {
None
}
}
}
}
} else {
if v < 0xF9FB {
if v < 0xF9F9 {
if v < 0xF9F8 {
if v == 0xF9F7 {
Some(vec!['\u{7ACB}'])
} else {
None
}
} else {
if v == 0xF9F8 {
Some(vec!['\u{7B20}'])
} else {
None
}
}
} else {
if v < 0xF9FA {
if v == 0xF9F9 {
Some(vec!['\u{7C92}'])
} else {
None
}
} else {
if v == 0xF9FA {
Some(vec!['\u{72C0}'])
} else {
None
}
}
}
} else {
if v < 0xF9FD {
if v < 0xF9FC {
if v == 0xF9FB {
Some(vec!['\u{7099}'])
} else {
None
}
} else {
if v == 0xF9FC {
Some(vec!['\u{8B58}'])
} else {
None
}
}
} else {
if v < 0xF9FE {
if v == 0xF9FD {
Some(vec!['\u{4EC0}'])
} else {
None
}
} else {
if v == 0xF9FE {
Some(vec!['\u{8336}'])
} else {
None
}
}
}
}
}
}
} else {
if v < 0xFA12 {
if v < 0xFA07 {
if v < 0xFA03 {
if v < 0xFA01 {
if v < 0xFA00 {
if v == 0xF9FF {
Some(vec!['\u{523A}'])
} else {
None
}
} else {
if v == 0xFA00 {
Some(vec!['\u{5207}'])
} else {
None
}
}
} else {
if v < 0xFA02 {
if v == 0xFA01 {
Some(vec!['\u{5EA6}'])
} else {
None
}
} else {
if v == 0xFA02 {
Some(vec!['\u{62D3}'])
} else {
None
}
}
}
} else {
if v < 0xFA05 {
if v < 0xFA04 {
if v == 0xFA03 {
Some(vec!['\u{7CD6}'])
} else {
None
}
} else {
if v == 0xFA04 {
Some(vec!['\u{5B85}'])
} else {
None
}
}
} else {
if v < 0xFA06 {
if v == 0xFA05 {
Some(vec!['\u{6D1E}'])
} else {
None
}
} else {
if v == 0xFA06 {
Some(vec!['\u{66B4}'])
} else {
None
}
}
}
}
} else {
if v < 0xFA0B {
if v < 0xFA09 {
if v < 0xFA08 {
if v == 0xFA07 {
Some(vec!['\u{8F3B}'])
} else {
None
}
} else {
if v == 0xFA08 {
Some(vec!['\u{884C}'])
} else {
None
}
}
} else {
if v < 0xFA0A {
if v == 0xFA09 {
Some(vec!['\u{964D}'])
} else {
None
}
} else {
if v == 0xFA0A {
Some(vec!['\u{898B}'])
} else {
None
}
}
}
} else {
if v < 0xFA0D {
if v < 0xFA0C {
if v == 0xFA0B {
Some(vec!['\u{5ED3}'])
} else {
None
}
} else {
if v == 0xFA0C {
Some(vec!['\u{5140}'])
} else {
None
}
}
} else {
if v < 0xFA10 {
if v == 0xFA0D {
Some(vec!['\u{55C0}'])
} else {
None
}
} else {
if v == 0xFA10 {
Some(vec!['\u{585A}'])
} else {
None
}
}
}
}
}
} else {
if v < 0xFA1C {
if v < 0xFA18 {
if v < 0xFA16 {
if v < 0xFA15 {
if v == 0xFA12 {
Some(vec!['\u{6674}'])
} else {
None
}
} else {
if v == 0xFA15 {
Some(vec!['\u{51DE}'])
} else {
None
}
}
} else {
if v < 0xFA17 {
if v == 0xFA16 {
Some(vec!['\u{732A}'])
} else {
None
}
} else {
if v == 0xFA17 {
Some(vec!['\u{76CA}'])
} else {
None
}
}
}
} else {
if v < 0xFA1A {
if v < 0xFA19 {
if v == 0xFA18 {
Some(vec!['\u{793C}'])
} else {
None
}
} else {
if v == 0xFA19 {
Some(vec!['\u{795E}'])
} else {
None
}
}
} else {
if v < 0xFA1B {
if v == 0xFA1A {
Some(vec!['\u{7965}'])
} else {
None
}
} else {
if v == 0xFA1B {
Some(vec!['\u{798F}'])
} else {
None
}
}
}
}
} else {
if v < 0xFA22 {
if v < 0xFA1E {
if v < 0xFA1D {
if v == 0xFA1C {
Some(vec!['\u{9756}'])
} else {
None
}
} else {
if v == 0xFA1D {
Some(vec!['\u{7CBE}'])
} else {
None
}
}
} else {
if v < 0xFA20 {
if v == 0xFA1E {
Some(vec!['\u{7FBD}'])
} else {
None
}
} else {
if v == 0xFA20 {
Some(vec!['\u{8612}'])
} else {
None
}
}
}
} else {
if v < 0xFA26 {
if v < 0xFA25 {
if v == 0xFA22 {
Some(vec!['\u{8AF8}'])
} else {
None
}
} else {
if v == 0xFA25 {
Some(vec!['\u{9038}'])
} else {
None
}
}
} else {
if v < 0xFA2A {
if v == 0xFA26 {
Some(vec!['\u{90FD}'])
} else {
None
}
} else {
if v < 0xFA2B {
if v == 0xFA2A {
Some(vec!['\u{98EF}'])
} else {
None
}
} else {
if v == 0xFA2B {
Some(vec!['\u{98FC}'])
} else {
None
}
}
}
}
}
}
}
}
}
}
} else {
if v < 0xFAAF {
if v < 0xFA6C {
if v < 0xFA4C {
if v < 0xFA3C {
if v < 0xFA34 {
if v < 0xFA30 {
if v < 0xFA2E {
if v < 0xFA2D {
if v == 0xFA2C {
Some(vec!['\u{9928}'])
} else {
None
}
} else {
if v == 0xFA2D {
Some(vec!['\u{9DB4}'])
} else {
None
}
}
} else {
if v < 0xFA2F {
if v == 0xFA2E {
Some(vec!['\u{90DE}'])
} else {
None
}
} else {
if v == 0xFA2F {
Some(vec!['\u{96B7}'])
} else {
None
}
}
}
} else {
if v < 0xFA32 {
if v < 0xFA31 {
if v == 0xFA30 {
Some(vec!['\u{4FAE}'])
} else {
None
}
} else {
if v == 0xFA31 {
Some(vec!['\u{50E7}'])
} else {
None
}
}
} else {
if v < 0xFA33 {
if v == 0xFA32 {
Some(vec!['\u{514D}'])
} else {
None
}
} else {
if v == 0xFA33 {
Some(vec!['\u{52C9}'])
} else {
None
}
}
}
}
} else {
if v < 0xFA38 {
if v < 0xFA36 {
if v < 0xFA35 {
if v == 0xFA34 {
Some(vec!['\u{52E4}'])
} else {
None
}
} else {
if v == 0xFA35 {
Some(vec!['\u{5351}'])
} else {
None
}
}
} else {
if v < 0xFA37 {
if v == 0xFA36 {
Some(vec!['\u{559D}'])
} else {
None
}
} else {
if v == 0xFA37 {
Some(vec!['\u{5606}'])
} else {
None
}
}
}
} else {
if v < 0xFA3A {
if v < 0xFA39 {
if v == 0xFA38 {
Some(vec!['\u{5668}'])
} else {
None
}
} else {
if v == 0xFA39 {
Some(vec!['\u{5840}'])
} else {
None
}
}
} else {
if v < 0xFA3B {
if v == 0xFA3A {
Some(vec!['\u{58A8}'])
} else {
None
}
} else {
if v == 0xFA3B {
Some(vec!['\u{5C64}'])
} else {
None
}
}
}
}
}
} else {
if v < 0xFA44 {
if v < 0xFA40 {
if v < 0xFA3E {
if v < 0xFA3D {
if v == 0xFA3C {
Some(vec!['\u{5C6E}'])
} else {
None
}
} else {
if v == 0xFA3D {
Some(vec!['\u{6094}'])
} else {
None
}
}
} else {
if v < 0xFA3F {
if v == 0xFA3E {
Some(vec!['\u{6168}'])
} else {
None
}
} else {
if v == 0xFA3F {
Some(vec!['\u{618E}'])
} else {
None
}
}
}
} else {
if v < 0xFA42 {
if v < 0xFA41 {
if v == 0xFA40 {
Some(vec!['\u{61F2}'])
} else {
None
}
} else {
if v == 0xFA41 {
Some(vec!['\u{654F}'])
} else {
None
}
}
} else {
if v < 0xFA43 {
if v == 0xFA42 {
Some(vec!['\u{65E2}'])
} else {
None
}
} else {
if v == 0xFA43 {
Some(vec!['\u{6691}'])
} else {
None
}
}
}
}
} else {
if v < 0xFA48 {
if v < 0xFA46 {
if v < 0xFA45 {
if v == 0xFA44 {
Some(vec!['\u{6885}'])
} else {
None
}
} else {
if v == 0xFA45 {
Some(vec!['\u{6D77}'])
} else {
None
}
}
} else {
if v < 0xFA47 {
if v == 0xFA46 {
Some(vec!['\u{6E1A}'])
} else {
None
}
} else {
if v == 0xFA47 {
Some(vec!['\u{6F22}'])
} else {
None
}
}
}
} else {
if v < 0xFA4A {
if v < 0xFA49 {
if v == 0xFA48 {
Some(vec!['\u{716E}'])
} else {
None
}
} else {
if v == 0xFA49 {
Some(vec!['\u{722B}'])
} else {
None
}
}
} else {
if v < 0xFA4B {
if v == 0xFA4A {
Some(vec!['\u{7422}'])
} else {
None
}
} else {
if v == 0xFA4B {
Some(vec!['\u{7891}'])
} else {
None
}
}
}
}
}
}
} else {
if v < 0xFA5C {
if v < 0xFA54 {
if v < 0xFA50 {
if v < 0xFA4E {
if v < 0xFA4D {
if v == 0xFA4C {
Some(vec!['\u{793E}'])
} else {
None
}
} else {
if v == 0xFA4D {
Some(vec!['\u{7949}'])
} else {
None
}
}
} else {
if v < 0xFA4F {
if v == 0xFA4E {
Some(vec!['\u{7948}'])
} else {
None
}
} else {
if v == 0xFA4F {
Some(vec!['\u{7950}'])
} else {
None
}
}
}
} else {
if v < 0xFA52 {
if v < 0xFA51 {
if v == 0xFA50 {
Some(vec!['\u{7956}'])
} else {
None
}
} else {
if v == 0xFA51 {
Some(vec!['\u{795D}'])
} else {
None
}
}
} else {
if v < 0xFA53 {
if v == 0xFA52 {
Some(vec!['\u{798D}'])
} else {
None
}
} else {
if v == 0xFA53 {
Some(vec!['\u{798E}'])
} else {
None
}
}
}
}
} else {
if v < 0xFA58 {
if v < 0xFA56 {
if v < 0xFA55 {
if v == 0xFA54 {
Some(vec!['\u{7A40}'])
} else {
None
}
} else {
if v == 0xFA55 {
Some(vec!['\u{7A81}'])
} else {
None
}
}
} else {
if v < 0xFA57 {
if v == 0xFA56 {
Some(vec!['\u{7BC0}'])
} else {
None
}
} else {
if v == 0xFA57 {
Some(vec!['\u{7DF4}'])
} else {
None
}
}
}
} else {
if v < 0xFA5A {
if v < 0xFA59 {
if v == 0xFA58 {
Some(vec!['\u{7E09}'])
} else {
None
}
} else {
if v == 0xFA59 {
Some(vec!['\u{7E41}'])
} else {
None
}
}
} else {
if v < 0xFA5B {
if v == 0xFA5A {
Some(vec!['\u{7F72}'])
} else {
None
}
} else {
if v == 0xFA5B {
Some(vec!['\u{8005}'])
} else {
None
}
}
}
}
}
} else {
if v < 0xFA64 {
if v < 0xFA60 {
if v < 0xFA5E {
if v < 0xFA5D {
if v == 0xFA5C {
Some(vec!['\u{81ED}'])
} else {
None
}
} else {
if v == 0xFA5D {
Some(vec!['\u{8279}'])
} else {
None
}
}
} else {
if v < 0xFA5F {
if v == 0xFA5E {
Some(vec!['\u{8279}'])
} else {
None
}
} else {
if v == 0xFA5F {
Some(vec!['\u{8457}'])
} else {
None
}
}
}
} else {
if v < 0xFA62 {
if v < 0xFA61 {
if v == 0xFA60 {
Some(vec!['\u{8910}'])
} else {
None
}
} else {
if v == 0xFA61 {
Some(vec!['\u{8996}'])
} else {
None
}
}
} else {
if v < 0xFA63 {
if v == 0xFA62 {
Some(vec!['\u{8B01}'])
} else {
None
}
} else {
if v == 0xFA63 {
Some(vec!['\u{8B39}'])
} else {
None
}
}
}
}
} else {
if v < 0xFA68 {
if v < 0xFA66 {
if v < 0xFA65 {
if v == 0xFA64 {
Some(vec!['\u{8CD3}'])
} else {
None
}
} else {
if v == 0xFA65 {
Some(vec!['\u{8D08}'])
} else {
None
}
}
} else {
if v < 0xFA67 {
if v == 0xFA66 {
Some(vec!['\u{8FB6}'])
} else {
None
}
} else {
if v == 0xFA67 {
Some(vec!['\u{9038}'])
} else {
None
}
}
}
} else {
if v < 0xFA6A {
if v < 0xFA69 {
if v == 0xFA68 {
Some(vec!['\u{96E3}'])
} else {
None
}
} else {
if v == 0xFA69 {
Some(vec!['\u{97FF}'])
} else {
None
}
}
} else {
if v < 0xFA6B {
if v == 0xFA6A {
Some(vec!['\u{983B}'])
} else {
None
}
} else {
if v == 0xFA6B {
Some(vec!['\u{6075}'])
} else {
None
}
}
}
}
}
}
}
} else {
if v < 0xFA8E {
if v < 0xFA7E {
if v < 0xFA76 {
if v < 0xFA72 {
if v < 0xFA70 {
if v < 0xFA6D {
if v == 0xFA6C {
Some(vec!['\u{242EE}'])
} else {
None
}
} else {
if v == 0xFA6D {
Some(vec!['\u{8218}'])
} else {
None
}
}
} else {
if v < 0xFA71 {
if v == 0xFA70 {
Some(vec!['\u{4E26}'])
} else {
None
}
} else {
if v == 0xFA71 {
Some(vec!['\u{51B5}'])
} else {
None
}
}
}
} else {
if v < 0xFA74 {
if v < 0xFA73 {
if v == 0xFA72 {
Some(vec!['\u{5168}'])
} else {
None
}
} else {
if v == 0xFA73 {
Some(vec!['\u{4F80}'])
} else {
None
}
}
} else {
if v < 0xFA75 {
if v == 0xFA74 {
Some(vec!['\u{5145}'])
} else {
None
}
} else {
if v == 0xFA75 {
Some(vec!['\u{5180}'])
} else {
None
}
}
}
}
} else {
if v < 0xFA7A {
if v < 0xFA78 {
if v < 0xFA77 {
if v == 0xFA76 {
Some(vec!['\u{52C7}'])
} else {
None
}
} else {
if v == 0xFA77 {
Some(vec!['\u{52FA}'])
} else {
None
}
}
} else {
if v < 0xFA79 {
if v == 0xFA78 {
Some(vec!['\u{559D}'])
} else {
None
}
} else {
if v == 0xFA79 {
Some(vec!['\u{5555}'])
} else {
None
}
}
}
} else {
if v < 0xFA7C {
if v < 0xFA7B {
if v == 0xFA7A {
Some(vec!['\u{5599}'])
} else {
None
}
} else {
if v == 0xFA7B {
Some(vec!['\u{55E2}'])
} else {
None
}
}
} else {
if v < 0xFA7D {
if v == 0xFA7C {
Some(vec!['\u{585A}'])
} else {
None
}
} else {
if v == 0xFA7D {
Some(vec!['\u{58B3}'])
} else {
None
}
}
}
}
}
} else {
if v < 0xFA86 {
if v < 0xFA82 {
if v < 0xFA80 {
if v < 0xFA7F {
if v == 0xFA7E {
Some(vec!['\u{5944}'])
} else {
None
}
} else {
if v == 0xFA7F {
Some(vec!['\u{5954}'])
} else {
None
}
}
} else {
if v < 0xFA81 {
if v == 0xFA80 {
Some(vec!['\u{5A62}'])
} else {
None
}
} else {
if v == 0xFA81 {
Some(vec!['\u{5B28}'])
} else {
None
}
}
}
} else {
if v < 0xFA84 {
if v < 0xFA83 {
if v == 0xFA82 {
Some(vec!['\u{5ED2}'])
} else {
None
}
} else {
if v == 0xFA83 {
Some(vec!['\u{5ED9}'])
} else {
None
}
}
} else {
if v < 0xFA85 {
if v == 0xFA84 {
Some(vec!['\u{5F69}'])
} else {
None
}
} else {
if v == 0xFA85 {
Some(vec!['\u{5FAD}'])
} else {
None
}
}
}
}
} else {
if v < 0xFA8A {
if v < 0xFA88 {
if v < 0xFA87 {
if v == 0xFA86 {
Some(vec!['\u{60D8}'])
} else {
None
}
} else {
if v == 0xFA87 {
Some(vec!['\u{614E}'])
} else {
None
}
}
} else {
if v < 0xFA89 {
if v == 0xFA88 {
Some(vec!['\u{6108}'])
} else {
None
}
} else {
if v == 0xFA89 {
Some(vec!['\u{618E}'])
} else {
None
}
}
}
} else {
if v < 0xFA8C {
if v < 0xFA8B {
if v == 0xFA8A {
Some(vec!['\u{6160}'])
} else {
None
}
} else {
if v == 0xFA8B {
Some(vec!['\u{61F2}'])
} else {
None
}
}
} else {
if v < 0xFA8D {
if v == 0xFA8C {
Some(vec!['\u{6234}'])
} else {
None
}
} else {
if v == 0xFA8D {
Some(vec!['\u{63C4}'])
} else {
None
}
}
}
}
}
}
} else {
if v < 0xFA9E {
if v < 0xFA96 {
if v < 0xFA92 {
if v < 0xFA90 {
if v < 0xFA8F {
if v == 0xFA8E {
Some(vec!['\u{641C}'])
} else {
None
}
} else {
if v == 0xFA8F {
Some(vec!['\u{6452}'])
} else {
None
}
}
} else {
if v < 0xFA91 {
if v == 0xFA90 {
Some(vec!['\u{6556}'])
} else {
None
}
} else {
if v == 0xFA91 {
Some(vec!['\u{6674}'])
} else {
None
}
}
}
} else {
if v < 0xFA94 {
if v < 0xFA93 {
if v == 0xFA92 {
Some(vec!['\u{6717}'])
} else {
None
}
} else {
if v == 0xFA93 {
Some(vec!['\u{671B}'])
} else {
None
}
}
} else {
if v < 0xFA95 {
if v == 0xFA94 {
Some(vec!['\u{6756}'])
} else {
None
}
} else {
if v == 0xFA95 {
Some(vec!['\u{6B79}'])
} else {
None
}
}
}
}
} else {
if v < 0xFA9A {
if v < 0xFA98 {
if v < 0xFA97 {
if v == 0xFA96 {
Some(vec!['\u{6BBA}'])
} else {
None
}
} else {
if v == 0xFA97 {
Some(vec!['\u{6D41}'])
} else {
None
}
}
} else {
if v < 0xFA99 {
if v == 0xFA98 {
Some(vec!['\u{6EDB}'])
} else {
None
}
} else {
if v == 0xFA99 {
Some(vec!['\u{6ECB}'])
} else {
None
}
}
}
} else {
if v < 0xFA9C {
if v < 0xFA9B {
if v == 0xFA9A {
Some(vec!['\u{6F22}'])
} else {
None
}
} else {
if v == 0xFA9B {
Some(vec!['\u{701E}'])
} else {
None
}
}
} else {
if v < 0xFA9D {
if v == 0xFA9C {
Some(vec!['\u{716E}'])
} else {
None
}
} else {
if v == 0xFA9D {
Some(vec!['\u{77A7}'])
} else {
None
}
}
}
}
}
} else {
if v < 0xFAA6 {
if v < 0xFAA2 {
if v < 0xFAA0 {
if v < 0xFA9F {
if v == 0xFA9E {
Some(vec!['\u{7235}'])
} else {
None
}
} else {
if v == 0xFA9F {
Some(vec!['\u{72AF}'])
} else {
None
}
}
} else {
if v < 0xFAA1 {
if v == 0xFAA0 {
Some(vec!['\u{732A}'])
} else {
None
}
} else {
if v == 0xFAA1 {
Some(vec!['\u{7471}'])
} else {
None
}
}
}
} else {
if v < 0xFAA4 {
if v < 0xFAA3 {
if v == 0xFAA2 {
Some(vec!['\u{7506}'])
} else {
None
}
} else {
if v == 0xFAA3 {
Some(vec!['\u{753B}'])
} else {
None
}
}
} else {
if v < 0xFAA5 {
if v == 0xFAA4 {
Some(vec!['\u{761D}'])
} else {
None
}
} else {
if v == 0xFAA5 {
Some(vec!['\u{761F}'])
} else {
None
}
}
}
}
} else {
if v < 0xFAAA {
if v < 0xFAA8 {
if v < 0xFAA7 {
if v == 0xFAA6 {
Some(vec!['\u{76CA}'])
} else {
None
}
} else {
if v == 0xFAA7 {
Some(vec!['\u{76DB}'])
} else {
None
}
}
} else {
if v < 0xFAA9 {
if v == 0xFAA8 {
Some(vec!['\u{76F4}'])
} else {
None
}
} else {
if v == 0xFAA9 {
Some(vec!['\u{774A}'])
} else {
None
}
}
}
} else {
if v < 0xFAAC {
if v < 0xFAAB {
if v == 0xFAAA {
Some(vec!['\u{7740}'])
} else {
None
}
} else {
if v == 0xFAAB {
Some(vec!['\u{78CC}'])
} else {
None
}
}
} else {
if v < 0xFAAD {
if v == 0xFAAC {
Some(vec!['\u{7AB1}'])
} else {
None
}
} else {
if v < 0xFAAE {
if v == 0xFAAD {
Some(vec!['\u{7BC0}'])
} else {
None
}
} else {
if v == 0xFAAE {
Some(vec!['\u{7C7B}'])
} else {
None
}
}
}
}
}
}
}
}
}
} else {
if v < 0xFB40 {
if v < 0xFACF {
if v < 0xFABF {
if v < 0xFAB7 {
if v < 0xFAB3 {
if v < 0xFAB1 {
if v < 0xFAB0 {
if v == 0xFAAF {
Some(vec!['\u{7D5B}'])
} else {
None
}
} else {
if v == 0xFAB0 {
Some(vec!['\u{7DF4}'])
} else {
None
}
}
} else {
if v < 0xFAB2 {
if v == 0xFAB1 {
Some(vec!['\u{7F3E}'])
} else {
None
}
} else {
if v == 0xFAB2 {
Some(vec!['\u{8005}'])
} else {
None
}
}
}
} else {
if v < 0xFAB5 {
if v < 0xFAB4 {
if v == 0xFAB3 {
Some(vec!['\u{8352}'])
} else {
None
}
} else {
if v == 0xFAB4 {
Some(vec!['\u{83EF}'])
} else {
None
}
}
} else {
if v < 0xFAB6 {
if v == 0xFAB5 {
Some(vec!['\u{8779}'])
} else {
None
}
} else {
if v == 0xFAB6 {
Some(vec!['\u{8941}'])
} else {
None
}
}
}
}
} else {
if v < 0xFABB {
if v < 0xFAB9 {
if v < 0xFAB8 {
if v == 0xFAB7 {
Some(vec!['\u{8986}'])
} else {
None
}
} else {
if v == 0xFAB8 {
Some(vec!['\u{8996}'])
} else {
None
}
}
} else {
if v < 0xFABA {
if v == 0xFAB9 {
Some(vec!['\u{8ABF}'])
} else {
None
}
} else {
if v == 0xFABA {
Some(vec!['\u{8AF8}'])
} else {
None
}
}
}
} else {
if v < 0xFABD {
if v < 0xFABC {
if v == 0xFABB {
Some(vec!['\u{8ACB}'])
} else {
None
}
} else {
if v == 0xFABC {
Some(vec!['\u{8B01}'])
} else {
None
}
}
} else {
if v < 0xFABE {
if v == 0xFABD {
Some(vec!['\u{8AFE}'])
} else {
None
}
} else {
if v == 0xFABE {
Some(vec!['\u{8AED}'])
} else {
None
}
}
}
}
}
} else {
if v < 0xFAC7 {
if v < 0xFAC3 {
if v < 0xFAC1 {
if v < 0xFAC0 {
if v == 0xFABF {
Some(vec!['\u{8B39}'])
} else {
None
}
} else {
if v == 0xFAC0 {
Some(vec!['\u{8B8A}'])
} else {
None
}
}
} else {
if v < 0xFAC2 {
if v == 0xFAC1 {
Some(vec!['\u{8D08}'])
} else {
None
}
} else {
if v == 0xFAC2 {
Some(vec!['\u{8F38}'])
} else {
None
}
}
}
} else {
if v < 0xFAC5 {
if v < 0xFAC4 {
if v == 0xFAC3 {
Some(vec!['\u{9072}'])
} else {
None
}
} else {
if v == 0xFAC4 {
Some(vec!['\u{9199}'])
} else {
None
}
}
} else {
if v < 0xFAC6 {
if v == 0xFAC5 {
Some(vec!['\u{9276}'])
} else {
None
}
} else {
if v == 0xFAC6 {
Some(vec!['\u{967C}'])
} else {
None
}
}
}
}
} else {
if v < 0xFACB {
if v < 0xFAC9 {
if v < 0xFAC8 {
if v == 0xFAC7 {
Some(vec!['\u{96E3}'])
} else {
None
}
} else {
if v == 0xFAC8 {
Some(vec!['\u{9756}'])
} else {
None
}
}
} else {
if v < 0xFACA {
if v == 0xFAC9 {
Some(vec!['\u{97DB}'])
} else {
None
}
} else {
if v == 0xFACA {
Some(vec!['\u{97FF}'])
} else {
None
}
}
}
} else {
if v < 0xFACD {
if v < 0xFACC {
if v == 0xFACB {
Some(vec!['\u{980B}'])
} else {
None
}
} else {
if v == 0xFACC {
Some(vec!['\u{983B}'])
} else {
None
}
}
} else {
if v < 0xFACE {
if v == 0xFACD {
Some(vec!['\u{9B12}'])
} else {
None
}
} else {
if v == 0xFACE {
Some(vec!['\u{9F9C}'])
} else {
None
}
}
}
}
}
}
} else {
if v < 0xFB2D {
if v < 0xFAD7 {
if v < 0xFAD3 {
if v < 0xFAD1 {
if v < 0xFAD0 {
if v == 0xFACF {
Some(vec!['\u{2284A}'])
} else {
None
}
} else {
if v == 0xFAD0 {
Some(vec!['\u{22844}'])
} else {
None
}
}
} else {
if v < 0xFAD2 {
if v == 0xFAD1 {
Some(vec!['\u{233D5}'])
} else {
None
}
} else {
if v == 0xFAD2 {
Some(vec!['\u{3B9D}'])
} else {
None
}
}
}
} else {
if v < 0xFAD5 {
if v < 0xFAD4 {
if v == 0xFAD3 {
Some(vec!['\u{4018}'])
} else {
None
}
} else {
if v == 0xFAD4 {
Some(vec!['\u{4039}'])
} else {
None
}
}
} else {
if v < 0xFAD6 {
if v == 0xFAD5 {
Some(vec!['\u{25249}'])
} else {
None
}
} else {
if v == 0xFAD6 {
Some(vec!['\u{25CD0}'])
} else {
None
}
}
}
}
} else {
if v < 0xFB1F {
if v < 0xFAD9 {
if v < 0xFAD8 {
if v == 0xFAD7 {
Some(vec!['\u{27ED3}'])
} else {
None
}
} else {
if v == 0xFAD8 {
Some(vec!['\u{9F43}'])
} else {
None
}
}
} else {
if v < 0xFB1D {
if v == 0xFAD9 {
Some(vec!['\u{9F8E}'])
} else {
None
}
} else {
if v == 0xFB1D {
Some(vec!['\u{5D9}', '\u{5B4}'])
} else {
None
}
}
}
} else {
if v < 0xFB2B {
if v < 0xFB2A {
if v == 0xFB1F {
Some(vec!['\u{5F2}', '\u{5B7}'])
} else {
None
}
} else {
if v == 0xFB2A {
Some(vec!['\u{5E9}', '\u{5C1}'])
} else {
None
}
}
} else {
if v < 0xFB2C {
if v == 0xFB2B {
Some(vec!['\u{5E9}', '\u{5C2}'])
} else {
None
}
} else {
if v == 0xFB2C {
Some(vec!['\u{5E9}', '\u{5BC}', '\u{5C1}'])
} else {
None
}
}
}
}
}
} else {
if v < 0xFB35 {
if v < 0xFB31 {
if v < 0xFB2F {
if v < 0xFB2E {
if v == 0xFB2D {
Some(vec!['\u{5E9}', '\u{5BC}', '\u{5C2}'])
} else {
None
}
} else {
if v == 0xFB2E {
Some(vec!['\u{5D0}', '\u{5B7}'])
} else {
None
}
}
} else {
if v < 0xFB30 {
if v == 0xFB2F {
Some(vec!['\u{5D0}', '\u{5B8}'])
} else {
None
}
} else {
if v == 0xFB30 {
Some(vec!['\u{5D0}', '\u{5BC}'])
} else {
None
}
}
}
} else {
if v < 0xFB33 {
if v < 0xFB32 {
if v == 0xFB31 {
Some(vec!['\u{5D1}', '\u{5BC}'])
} else {
None
}
} else {
if v == 0xFB32 {
Some(vec!['\u{5D2}', '\u{5BC}'])
} else {
None
}
}
} else {
if v < 0xFB34 {
if v == 0xFB33 {
Some(vec!['\u{5D3}', '\u{5BC}'])
} else {
None
}
} else {
if v == 0xFB34 {
Some(vec!['\u{5D4}', '\u{5BC}'])
} else {
None
}
}
}
}
} else {
if v < 0xFB3A {
if v < 0xFB38 {
if v < 0xFB36 {
if v == 0xFB35 {
Some(vec!['\u{5D5}', '\u{5BC}'])
} else {
None
}
} else {
if v == 0xFB36 {
Some(vec!['\u{5D6}', '\u{5BC}'])
} else {
None
}
}
} else {
if v < 0xFB39 {
if v == 0xFB38 {
Some(vec!['\u{5D8}', '\u{5BC}'])
} else {
None
}
} else {
if v == 0xFB39 {
Some(vec!['\u{5D9}', '\u{5BC}'])
} else {
None
}
}
}
} else {
if v < 0xFB3C {
if v < 0xFB3B {
if v == 0xFB3A {
Some(vec!['\u{5DA}', '\u{5BC}'])
} else {
None
}
} else {
if v == 0xFB3B {
Some(vec!['\u{5DB}', '\u{5BC}'])
} else {
None
}
}
} else {
if v < 0xFB3E {
if v == 0xFB3C {
Some(vec!['\u{5DC}', '\u{5BC}'])
} else {
None
}
} else {
if v == 0xFB3E {
Some(vec!['\u{5DE}', '\u{5BC}'])
} else {
None
}
}
}
}
}
}
}
} else {
if v < 0x1D164 {
if v < 0x1112E {
if v < 0xFB4A {
if v < 0xFB46 {
if v < 0xFB43 {
if v < 0xFB41 {
if v == 0xFB40 {
Some(vec!['\u{5E0}', '\u{5BC}'])
} else {
None
}
} else {
if v == 0xFB41 {
Some(vec!['\u{5E1}', '\u{5BC}'])
} else {
None
}
}
} else {
if v < 0xFB44 {
if v == 0xFB43 {
Some(vec!['\u{5E3}', '\u{5BC}'])
} else {
None
}
} else {
if v == 0xFB44 {
Some(vec!['\u{5E4}', '\u{5BC}'])
} else {
None
}
}
}
} else {
if v < 0xFB48 {
if v < 0xFB47 {
if v == 0xFB46 {
Some(vec!['\u{5E6}', '\u{5BC}'])
} else {
None
}
} else {
if v == 0xFB47 {
Some(vec!['\u{5E7}', '\u{5BC}'])
} else {
None
}
}
} else {
if v < 0xFB49 {
if v == 0xFB48 {
Some(vec!['\u{5E8}', '\u{5BC}'])
} else {
None
}
} else {
if v == 0xFB49 {
Some(vec!['\u{5E9}', '\u{5BC}'])
} else {
None
}
}
}
}
} else {
if v < 0xFB4E {
if v < 0xFB4C {
if v < 0xFB4B {
if v == 0xFB4A {
Some(vec!['\u{5EA}', '\u{5BC}'])
} else {
None
}
} else {
if v == 0xFB4B {
Some(vec!['\u{5D5}', '\u{5B9}'])
} else {
None
}
}
} else {
if v < 0xFB4D {
if v == 0xFB4C {
Some(vec!['\u{5D1}', '\u{5BF}'])
} else {
None
}
} else {
if v == 0xFB4D {
Some(vec!['\u{5DB}', '\u{5BF}'])
} else {
None
}
}
}
} else {
if v < 0x1109C {
if v < 0x1109A {
if v == 0xFB4E {
Some(vec!['\u{5E4}', '\u{5BF}'])
} else {
None
}
} else {
if v == 0x1109A {
Some(vec!['\u{11099}', '\u{110BA}'])
} else {
None
}
}
} else {
if v < 0x110AB {
if v == 0x1109C {
Some(vec!['\u{1109B}', '\u{110BA}'])
} else {
None
}
} else {
if v == 0x110AB {
Some(vec!['\u{110A5}', '\u{110BA}'])
} else {
None
}
}
}
}
}
} else {
if v < 0x115BB {
if v < 0x114BB {
if v < 0x1134B {
if v < 0x1112F {
if v == 0x1112E {
Some(vec!['\u{11131}', '\u{11127}'])
} else {
None
}
} else {
if v == 0x1112F {
Some(vec!['\u{11132}', '\u{11127}'])
} else {
None
}
}
} else {
if v < 0x1134C {
if v == 0x1134B {
Some(vec!['\u{11347}', '\u{1133E}'])
} else {
None
}
} else {
if v == 0x1134C {
Some(vec!['\u{11347}', '\u{11357}'])
} else {
None
}
}
}
} else {
if v < 0x114BE {
if v < 0x114BC {
if v == 0x114BB {
Some(vec!['\u{114B9}', '\u{114BA}'])
} else {
None
}
} else {
if v == 0x114BC {
Some(vec!['\u{114B9}', '\u{114B0}'])
} else {
None
}
}
} else {
if v < 0x115BA {
if v == 0x114BE {
Some(vec!['\u{114B9}', '\u{114BD}'])
} else {
None
}
} else {
if v == 0x115BA {
Some(vec!['\u{115B8}', '\u{115AF}'])
} else {
None
}
}
}
}
} else {
if v < 0x1D160 {
if v < 0x1D15E {
if v < 0x11938 {
if v == 0x115BB {
Some(vec!['\u{115B9}', '\u{115AF}'])
} else {
None
}
} else {
if v == 0x11938 {
Some(vec!['\u{11935}', '\u{11930}'])
} else {
None
}
}
} else {
if v < 0x1D15F {
if v == 0x1D15E {
Some(vec!['\u{1D157}', '\u{1D165}'])
} else {
None
}
} else {
if v == 0x1D15F {
Some(vec!['\u{1D158}', '\u{1D165}'])
} else {
None
}
}
}
} else {
if v < 0x1D162 {
if v < 0x1D161 {
if v == 0x1D160 {
Some(vec!['\u{1D158}', '\u{1D165}', '\u{1D16E}'])
} else {
None
}
} else {
if v == 0x1D161 {
Some(vec!['\u{1D158}', '\u{1D165}', '\u{1D16F}'])
} else {
None
}
}
} else {
if v < 0x1D163 {
if v == 0x1D162 {
Some(vec!['\u{1D158}', '\u{1D165}', '\u{1D170}'])
} else {
None
}
} else {
if v == 0x1D163 {
Some(vec!['\u{1D158}', '\u{1D165}', '\u{1D171}'])
} else {
None
}
}
}
}
}
}
} else {
if v < 0x2F809 {
if v < 0x2F801 {
if v < 0x1D1BE {
if v < 0x1D1BC {
if v < 0x1D1BB {
if v == 0x1D164 {
Some(vec!['\u{1D158}', '\u{1D165}', '\u{1D172}'])
} else {
None
}
} else {
if v == 0x1D1BB {
Some(vec!['\u{1D1B9}', '\u{1D165}'])
} else {
None
}
}
} else {
if v < 0x1D1BD {
if v == 0x1D1BC {
Some(vec!['\u{1D1BA}', '\u{1D165}'])
} else {
None
}
} else {
if v == 0x1D1BD {
Some(vec!['\u{1D1B9}', '\u{1D165}', '\u{1D16E}'])
} else {
None
}
}
}
} else {
if v < 0x1D1C0 {
if v < 0x1D1BF {
if v == 0x1D1BE {
Some(vec!['\u{1D1BA}', '\u{1D165}', '\u{1D16E}'])
} else {
None
}
} else {
if v == 0x1D1BF {
Some(vec!['\u{1D1B9}', '\u{1D165}', '\u{1D16F}'])
} else {
None
}
}
} else {
if v < 0x2F800 {
if v == 0x1D1C0 {
Some(vec!['\u{1D1BA}', '\u{1D165}', '\u{1D16F}'])
} else {
None
}
} else {
if v == 0x2F800 {
Some(vec!['\u{4E3D}'])
} else {
None
}
}
}
}
} else {
if v < 0x2F805 {
if v < 0x2F803 {
if v < 0x2F802 {
if v == 0x2F801 {
Some(vec!['\u{4E38}'])
} else {
None
}
} else {
if v == 0x2F802 {
Some(vec!['\u{4E41}'])
} else {
None
}
}
} else {
if v < 0x2F804 {
if v == 0x2F803 {
Some(vec!['\u{20122}'])
} else {
None
}
} else {
if v == 0x2F804 {
Some(vec!['\u{4F60}'])
} else {
None
}
}
}
} else {
if v < 0x2F807 {
if v < 0x2F806 {
if v == 0x2F805 {
Some(vec!['\u{4FAE}'])
} else {
None
}
} else {
if v == 0x2F806 {
Some(vec!['\u{4FBB}'])
} else {
None
}
}
} else {
if v < 0x2F808 {
if v == 0x2F807 {
Some(vec!['\u{5002}'])
} else {
None
}
} else {
if v == 0x2F808 {
Some(vec!['\u{507A}'])
} else {
None
}
}
}
}
}
} else {
if v < 0x2F811 {
if v < 0x2F80D {
if v < 0x2F80B {
if v < 0x2F80A {
if v == 0x2F809 {
Some(vec!['\u{5099}'])
} else {
None
}
} else {
if v == 0x2F80A {
Some(vec!['\u{50E7}'])
} else {
None
}
}
} else {
if v < 0x2F80C {
if v == 0x2F80B {
Some(vec!['\u{50CF}'])
} else {
None
}
} else {
if v == 0x2F80C {
Some(vec!['\u{349E}'])
} else {
None
}
}
}
} else {
if v < 0x2F80F {
if v < 0x2F80E {
if v == 0x2F80D {
Some(vec!['\u{2063A}'])
} else {
None
}
} else {
if v == 0x2F80E {
Some(vec!['\u{514D}'])
} else {
None
}
}
} else {
if v < 0x2F810 {
if v == 0x2F80F {
Some(vec!['\u{5154}'])
} else {
None
}
} else {
if v == 0x2F810 {
Some(vec!['\u{5164}'])
} else {
None
}
}
}
}
} else {
if v < 0x2F815 {
if v < 0x2F813 {
if v < 0x2F812 {
if v == 0x2F811 {
Some(vec!['\u{5177}'])
} else {
None
}
} else {
if v == 0x2F812 {
Some(vec!['\u{2051C}'])
} else {
None
}
}
} else {
if v < 0x2F814 {
if v == 0x2F813 {
Some(vec!['\u{34B9}'])
} else {
None
}
} else {
if v == 0x2F814 {
Some(vec!['\u{5167}'])
} else {
None
}
}
}
} else {
if v < 0x2F817 {
if v < 0x2F816 {
if v == 0x2F815 {
Some(vec!['\u{518D}'])
} else {
None
}
} else {
if v == 0x2F816 {
Some(vec!['\u{2054B}'])
} else {
None
}
}
} else {
if v < 0x2F818 {
if v == 0x2F817 {
Some(vec!['\u{5197}'])
} else {
None
}
} else {
if v < 0x2F819 {
if v == 0x2F818 {
Some(vec!['\u{51A4}'])
} else {
None
}
} else {
if v == 0x2F819 {
Some(vec!['\u{4ECC}'])
} else {
None
}
}
}
}
}
}
}
}
}
}
}
} else {
if v < 0x2F91C {
if v < 0x2F89B {
if v < 0x2F85A {
if v < 0x2F83A {
if v < 0x2F82A {
if v < 0x2F822 {
if v < 0x2F81E {
if v < 0x2F81C {
if v < 0x2F81B {
if v == 0x2F81A {
Some(vec!['\u{51AC}'])
} else {
None
}
} else {
if v == 0x2F81B {
Some(vec!['\u{51B5}'])
} else {
None
}
}
} else {
if v < 0x2F81D {
if v == 0x2F81C {
Some(vec!['\u{291DF}'])
} else {
None
}
} else {
if v == 0x2F81D {
Some(vec!['\u{51F5}'])
} else {
None
}
}
}
} else {
if v < 0x2F820 {
if v < 0x2F81F {
if v == 0x2F81E {
Some(vec!['\u{5203}'])
} else {
None
}
} else {
if v == 0x2F81F {
Some(vec!['\u{34DF}'])
} else {
None
}
}
} else {
if v < 0x2F821 {
if v == 0x2F820 {
Some(vec!['\u{523B}'])
} else {
None
}
} else {
if v == 0x2F821 {
Some(vec!['\u{5246}'])
} else {
None
}
}
}
}
} else {
if v < 0x2F826 {
if v < 0x2F824 {
if v < 0x2F823 {
if v == 0x2F822 {
Some(vec!['\u{5272}'])
} else {
None
}
} else {
if v == 0x2F823 {
Some(vec!['\u{5277}'])
} else {
None
}
}
} else {
if v < 0x2F825 {
if v == 0x2F824 {
Some(vec!['\u{3515}'])
} else {
None
}
} else {
if v == 0x2F825 {
Some(vec!['\u{52C7}'])
} else {
None
}
}
}
} else {
if v < 0x2F828 {
if v < 0x2F827 {
if v == 0x2F826 {
Some(vec!['\u{52C9}'])
} else {
None
}
} else {
if v == 0x2F827 {
Some(vec!['\u{52E4}'])
} else {
None
}
}
} else {
if v < 0x2F829 {
if v == 0x2F828 {
Some(vec!['\u{52FA}'])
} else {
None
}
} else {
if v == 0x2F829 {
Some(vec!['\u{5305}'])
} else {
None
}
}
}
}
}
} else {
if v < 0x2F832 {
if v < 0x2F82E {
if v < 0x2F82C {
if v < 0x2F82B {
if v == 0x2F82A {
Some(vec!['\u{5306}'])
} else {
None
}
} else {
if v == 0x2F82B {
Some(vec!['\u{5317}'])
} else {
None
}
}
} else {
if v < 0x2F82D {
if v == 0x2F82C {
Some(vec!['\u{5349}'])
} else {
None
}
} else {
if v == 0x2F82D {
Some(vec!['\u{5351}'])
} else {
None
}
}
}
} else {
if v < 0x2F830 {
if v < 0x2F82F {
if v == 0x2F82E {
Some(vec!['\u{535A}'])
} else {
None
}
} else {
if v == 0x2F82F {
Some(vec!['\u{5373}'])
} else {
None
}
}
} else {
if v < 0x2F831 {
if v == 0x2F830 {
Some(vec!['\u{537D}'])
} else {
None
}
} else {
if v == 0x2F831 {
Some(vec!['\u{537F}'])
} else {
None
}
}
}
}
} else {
if v < 0x2F836 {
if v < 0x2F834 {
if v < 0x2F833 {
if v == 0x2F832 {
Some(vec!['\u{537F}'])
} else {
None
}
} else {
if v == 0x2F833 {
Some(vec!['\u{537F}'])
} else {
None
}
}
} else {
if v < 0x2F835 {
if v == 0x2F834 {
Some(vec!['\u{20A2C}'])
} else {
None
}
} else {
if v == 0x2F835 {
Some(vec!['\u{7070}'])
} else {
None
}
}
}
} else {
if v < 0x2F838 {
if v < 0x2F837 {
if v == 0x2F836 {
Some(vec!['\u{53CA}'])
} else {
None
}
} else {
if v == 0x2F837 {
Some(vec!['\u{53DF}'])
} else {
None
}
}
} else {
if v < 0x2F839 {
if v == 0x2F838 {
Some(vec!['\u{20B63}'])
} else {
None
}
} else {
if v == 0x2F839 {
Some(vec!['\u{53EB}'])
} else {
None
}
}
}
}
}
}
} else {
if v < 0x2F84A {
if v < 0x2F842 {
if v < 0x2F83E {
if v < 0x2F83C {
if v < 0x2F83B {
if v == 0x2F83A {
Some(vec!['\u{53F1}'])
} else {
None
}
} else {
if v == 0x2F83B {
Some(vec!['\u{5406}'])
} else {
None
}
}
} else {
if v < 0x2F83D {
if v == 0x2F83C {
Some(vec!['\u{549E}'])
} else {
None
}
} else {
if v == 0x2F83D {
Some(vec!['\u{5438}'])
} else {
None
}
}
}
} else {
if v < 0x2F840 {
if v < 0x2F83F {
if v == 0x2F83E {
Some(vec!['\u{5448}'])
} else {
None
}
} else {
if v == 0x2F83F {
Some(vec!['\u{5468}'])
} else {
None
}
}
} else {
if v < 0x2F841 {
if v == 0x2F840 {
Some(vec!['\u{54A2}'])
} else {
None
}
} else {
if v == 0x2F841 {
Some(vec!['\u{54F6}'])
} else {
None
}
}
}
}
} else {
if v < 0x2F846 {
if v < 0x2F844 {
if v < 0x2F843 {
if v == 0x2F842 {
Some(vec!['\u{5510}'])
} else {
None
}
} else {
if v == 0x2F843 {
Some(vec!['\u{5553}'])
} else {
None
}
}
} else {
if v < 0x2F845 {
if v == 0x2F844 {
Some(vec!['\u{5563}'])
} else {
None
}
} else {
if v == 0x2F845 {
Some(vec!['\u{5584}'])
} else {
None
}
}
}
} else {
if v < 0x2F848 {
if v < 0x2F847 {
if v == 0x2F846 {
Some(vec!['\u{5584}'])
} else {
None
}
} else {
if v == 0x2F847 {
Some(vec!['\u{5599}'])
} else {
None
}
}
} else {
if v < 0x2F849 {
if v == 0x2F848 {
Some(vec!['\u{55AB}'])
} else {
None
}
} else {
if v == 0x2F849 {
Some(vec!['\u{55B3}'])
} else {
None
}
}
}
}
}
} else {
if v < 0x2F852 {
if v < 0x2F84E {
if v < 0x2F84C {
if v < 0x2F84B {
if v == 0x2F84A {
Some(vec!['\u{55C2}'])
} else {
None
}
} else {
if v == 0x2F84B {
Some(vec!['\u{5716}'])
} else {
None
}
}
} else {
if v < 0x2F84D {
if v == 0x2F84C {
Some(vec!['\u{5606}'])
} else {
None
}
} else {
if v == 0x2F84D {
Some(vec!['\u{5717}'])
} else {
None
}
}
}
} else {
if v < 0x2F850 {
if v < 0x2F84F {
if v == 0x2F84E {
Some(vec!['\u{5651}'])
} else {
None
}
} else {
if v == 0x2F84F {
Some(vec!['\u{5674}'])
} else {
None
}
}
} else {
if v < 0x2F851 {
if v == 0x2F850 {
Some(vec!['\u{5207}'])
} else {
None
}
} else {
if v == 0x2F851 {
Some(vec!['\u{58EE}'])
} else {
None
}
}
}
}
} else {
if v < 0x2F856 {
if v < 0x2F854 {
if v < 0x2F853 {
if v == 0x2F852 {
Some(vec!['\u{57CE}'])
} else {
None
}
} else {
if v == 0x2F853 {
Some(vec!['\u{57F4}'])
} else {
None
}
}
} else {
if v < 0x2F855 {
if v == 0x2F854 {
Some(vec!['\u{580D}'])
} else {
None
}
} else {
if v == 0x2F855 {
Some(vec!['\u{578B}'])
} else {
None
}
}
}
} else {
if v < 0x2F858 {
if v < 0x2F857 {
if v == 0x2F856 {
Some(vec!['\u{5832}'])
} else {
None
}
} else {
if v == 0x2F857 {
Some(vec!['\u{5831}'])
} else {
None
}
}
} else {
if v < 0x2F859 {
if v == 0x2F858 {
Some(vec!['\u{58AC}'])
} else {
None
}
} else {
if v == 0x2F859 {
Some(vec!['\u{214E4}'])
} else {
None
}
}
}
}
}
}
}
} else {
if v < 0x2F87A {
if v < 0x2F86A {
if v < 0x2F862 {
if v < 0x2F85E {
if v < 0x2F85C {
if v < 0x2F85B {
if v == 0x2F85A {
Some(vec!['\u{58F2}'])
} else {
None
}
} else {
if v == 0x2F85B {
Some(vec!['\u{58F7}'])
} else {
None
}
}
} else {
if v < 0x2F85D {
if v == 0x2F85C {
Some(vec!['\u{5906}'])
} else {
None
}
} else {
if v == 0x2F85D {
Some(vec!['\u{591A}'])
} else {
None
}
}
}
} else {
if v < 0x2F860 {
if v < 0x2F85F {
if v == 0x2F85E {
Some(vec!['\u{5922}'])
} else {
None
}
} else {
if v == 0x2F85F {
Some(vec!['\u{5962}'])
} else {
None
}
}
} else {
if v < 0x2F861 {
if v == 0x2F860 {
Some(vec!['\u{216A8}'])
} else {
None
}
} else {
if v == 0x2F861 {
Some(vec!['\u{216EA}'])
} else {
None
}
}
}
}
} else {
if v < 0x2F866 {
if v < 0x2F864 {
if v < 0x2F863 {
if v == 0x2F862 {
Some(vec!['\u{59EC}'])
} else {
None
}
} else {
if v == 0x2F863 {
Some(vec!['\u{5A1B}'])
} else {
None
}
}
} else {
if v < 0x2F865 {
if v == 0x2F864 {
Some(vec!['\u{5A27}'])
} else {
None
}
} else {
if v == 0x2F865 {
Some(vec!['\u{59D8}'])
} else {
None
}
}
}
} else {
if v < 0x2F868 {
if v < 0x2F867 {
if v == 0x2F866 {
Some(vec!['\u{5A66}'])
} else {
None
}
} else {
if v == 0x2F867 {
Some(vec!['\u{36EE}'])
} else {
None
}
}
} else {
if v < 0x2F869 {
if v == 0x2F868 {
Some(vec!['\u{36FC}'])
} else {
None
}
} else {
if v == 0x2F869 {
Some(vec!['\u{5B08}'])
} else {
None
}
}
}
}
}
} else {
if v < 0x2F872 {
if v < 0x2F86E {
if v < 0x2F86C {
if v < 0x2F86B {
if v == 0x2F86A {
Some(vec!['\u{5B3E}'])
} else {
None
}
} else {
if v == 0x2F86B {
Some(vec!['\u{5B3E}'])
} else {
None
}
}
} else {
if v < 0x2F86D {
if v == 0x2F86C {
Some(vec!['\u{219C8}'])
} else {
None
}
} else {
if v == 0x2F86D {
Some(vec!['\u{5BC3}'])
} else {
None
}
}
}
} else {
if v < 0x2F870 {
if v < 0x2F86F {
if v == 0x2F86E {
Some(vec!['\u{5BD8}'])
} else {
None
}
} else {
if v == 0x2F86F {
Some(vec!['\u{5BE7}'])
} else {
None
}
}
} else {
if v < 0x2F871 {
if v == 0x2F870 {
Some(vec!['\u{5BF3}'])
} else {
None
}
} else {
if v == 0x2F871 {
Some(vec!['\u{21B18}'])
} else {
None
}
}
}
}
} else {
if v < 0x2F876 {
if v < 0x2F874 {
if v < 0x2F873 {
if v == 0x2F872 {
Some(vec!['\u{5BFF}'])
} else {
None
}
} else {
if v == 0x2F873 {
Some(vec!['\u{5C06}'])
} else {
None
}
}
} else {
if v < 0x2F875 {
if v == 0x2F874 {
Some(vec!['\u{5F53}'])
} else {
None
}
} else {
if v == 0x2F875 {
Some(vec!['\u{5C22}'])
} else {
None
}
}
}
} else {
if v < 0x2F878 {
if v < 0x2F877 {
if v == 0x2F876 {
Some(vec!['\u{3781}'])
} else {
None
}
} else {
if v == 0x2F877 {
Some(vec!['\u{5C60}'])
} else {
None
}
}
} else {
if v < 0x2F879 {
if v == 0x2F878 {
Some(vec!['\u{5C6E}'])
} else {
None
}
} else {
if v == 0x2F879 {
Some(vec!['\u{5CC0}'])
} else {
None
}
}
}
}
}
}
} else {
if v < 0x2F88A {
if v < 0x2F882 {
if v < 0x2F87E {
if v < 0x2F87C {
if v < 0x2F87B {
if v == 0x2F87A {
Some(vec!['\u{5C8D}'])
} else {
None
}
} else {
if v == 0x2F87B {
Some(vec!['\u{21DE4}'])
} else {
None
}
}
} else {
if v < 0x2F87D {
if v == 0x2F87C {
Some(vec!['\u{5D43}'])
} else {
None
}
} else {
if v == 0x2F87D {
Some(vec!['\u{21DE6}'])
} else {
None
}
}
}
} else {
if v < 0x2F880 {
if v < 0x2F87F {
if v == 0x2F87E {
Some(vec!['\u{5D6E}'])
} else {
None
}
} else {
if v == 0x2F87F {
Some(vec!['\u{5D6B}'])
} else {
None
}
}
} else {
if v < 0x2F881 {
if v == 0x2F880 {
Some(vec!['\u{5D7C}'])
} else {
None
}
} else {
if v == 0x2F881 {
Some(vec!['\u{5DE1}'])
} else {
None
}
}
}
}
} else {
if v < 0x2F886 {
if v < 0x2F884 {
if v < 0x2F883 {
if v == 0x2F882 {
Some(vec!['\u{5DE2}'])
} else {
None
}
} else {
if v == 0x2F883 {
Some(vec!['\u{382F}'])
} else {
None
}
}
} else {
if v < 0x2F885 {
if v == 0x2F884 {
Some(vec!['\u{5DFD}'])
} else {
None
}
} else {
if v == 0x2F885 {
Some(vec!['\u{5E28}'])
} else {
None
}
}
}
} else {
if v < 0x2F888 {
if v < 0x2F887 {
if v == 0x2F886 {
Some(vec!['\u{5E3D}'])
} else {
None
}
} else {
if v == 0x2F887 {
Some(vec!['\u{5E69}'])
} else {
None
}
}
} else {
if v < 0x2F889 {
if v == 0x2F888 {
Some(vec!['\u{3862}'])
} else {
None
}
} else {
if v == 0x2F889 {
Some(vec!['\u{22183}'])
} else {
None
}
}
}
}
}
} else {
if v < 0x2F892 {
if v < 0x2F88E {
if v < 0x2F88C {
if v < 0x2F88B {
if v == 0x2F88A {
Some(vec!['\u{387C}'])
} else {
None
}
} else {
if v == 0x2F88B {
Some(vec!['\u{5EB0}'])
} else {
None
}
}
} else {
if v < 0x2F88D {
if v == 0x2F88C {
Some(vec!['\u{5EB3}'])
} else {
None
}
} else {
if v == 0x2F88D {
Some(vec!['\u{5EB6}'])
} else {
None
}
}
}
} else {
if v < 0x2F890 {
if v < 0x2F88F {
if v == 0x2F88E {
Some(vec!['\u{5ECA}'])
} else {
None
}
} else {
if v == 0x2F88F {
Some(vec!['\u{2A392}'])
} else {
None
}
}
} else {
if v < 0x2F891 {
if v == 0x2F890 {
Some(vec!['\u{5EFE}'])
} else {
None
}
} else {
if v == 0x2F891 {
Some(vec!['\u{22331}'])
} else {
None
}
}
}
}
} else {
if v < 0x2F896 {
if v < 0x2F894 {
if v < 0x2F893 {
if v == 0x2F892 {
Some(vec!['\u{22331}'])
} else {
None
}
} else {
if v == 0x2F893 {
Some(vec!['\u{8201}'])
} else {
None
}
}
} else {
if v < 0x2F895 {
if v == 0x2F894 {
Some(vec!['\u{5F22}'])
} else {
None
}
} else {
if v == 0x2F895 {
Some(vec!['\u{5F22}'])
} else {
None
}
}
}
} else {
if v < 0x2F898 {
if v < 0x2F897 {
if v == 0x2F896 {
Some(vec!['\u{38C7}'])
} else {
None
}
} else {
if v == 0x2F897 {
Some(vec!['\u{232B8}'])
} else {
None
}
}
} else {
if v < 0x2F899 {
if v == 0x2F898 {
Some(vec!['\u{261DA}'])
} else {
None
}
} else {
if v < 0x2F89A {
if v == 0x2F899 {
Some(vec!['\u{5F62}'])
} else {
None
}
} else {
if v == 0x2F89A {
Some(vec!['\u{5F6B}'])
} else {
None
}
}
}
}
}
}
}
}
}
} else {
if v < 0x2F8DB {
if v < 0x2F8BB {
if v < 0x2F8AB {
if v < 0x2F8A3 {
if v < 0x2F89F {
if v < 0x2F89D {
if v < 0x2F89C {
if v == 0x2F89B {
Some(vec!['\u{38E3}'])
} else {
None
}
} else {
if v == 0x2F89C {
Some(vec!['\u{5F9A}'])
} else {
None
}
}
} else {
if v < 0x2F89E {
if v == 0x2F89D {
Some(vec!['\u{5FCD}'])
} else {
None
}
} else {
if v == 0x2F89E {
Some(vec!['\u{5FD7}'])
} else {
None
}
}
}
} else {
if v < 0x2F8A1 {
if v < 0x2F8A0 {
if v == 0x2F89F {
Some(vec!['\u{5FF9}'])
} else {
None
}
} else {
if v == 0x2F8A0 {
Some(vec!['\u{6081}'])
} else {
None
}
}
} else {
if v < 0x2F8A2 {
if v == 0x2F8A1 {
Some(vec!['\u{393A}'])
} else {
None
}
} else {
if v == 0x2F8A2 {
Some(vec!['\u{391C}'])
} else {
None
}
}
}
}
} else {
if v < 0x2F8A7 {
if v < 0x2F8A5 {
if v < 0x2F8A4 {
if v == 0x2F8A3 {
Some(vec!['\u{6094}'])
} else {
None
}
} else {
if v == 0x2F8A4 {
Some(vec!['\u{226D4}'])
} else {
None
}
}
} else {
if v < 0x2F8A6 {
if v == 0x2F8A5 {
Some(vec!['\u{60C7}'])
} else {
None
}
} else {
if v == 0x2F8A6 {
Some(vec!['\u{6148}'])
} else {
None
}
}
}
} else {
if v < 0x2F8A9 {
if v < 0x2F8A8 {
if v == 0x2F8A7 {
Some(vec!['\u{614C}'])
} else {
None
}
} else {
if v == 0x2F8A8 {
Some(vec!['\u{614E}'])
} else {
None
}
}
} else {
if v < 0x2F8AA {
if v == 0x2F8A9 {
Some(vec!['\u{614C}'])
} else {
None
}
} else {
if v == 0x2F8AA {
Some(vec!['\u{617A}'])
} else {
None
}
}
}
}
}
} else {
if v < 0x2F8B3 {
if v < 0x2F8AF {
if v < 0x2F8AD {
if v < 0x2F8AC {
if v == 0x2F8AB {
Some(vec!['\u{618E}'])
} else {
None
}
} else {
if v == 0x2F8AC {
Some(vec!['\u{61B2}'])
} else {
None
}
}
} else {
if v < 0x2F8AE {
if v == 0x2F8AD {
Some(vec!['\u{61A4}'])
} else {
None
}
} else {
if v == 0x2F8AE {
Some(vec!['\u{61AF}'])
} else {
None
}
}
}
} else {
if v < 0x2F8B1 {
if v < 0x2F8B0 {
if v == 0x2F8AF {
Some(vec!['\u{61DE}'])
} else {
None
}
} else {
if v == 0x2F8B0 {
Some(vec!['\u{61F2}'])
} else {
None
}
}
} else {
if v < 0x2F8B2 {
if v == 0x2F8B1 {
Some(vec!['\u{61F6}'])
} else {
None
}
} else {
if v == 0x2F8B2 {
Some(vec!['\u{6210}'])
} else {
None
}
}
}
}
} else {
if v < 0x2F8B7 {
if v < 0x2F8B5 {
if v < 0x2F8B4 {
if v == 0x2F8B3 {
Some(vec!['\u{621B}'])
} else {
None
}
} else {
if v == 0x2F8B4 {
Some(vec!['\u{625D}'])
} else {
None
}
}
} else {
if v < 0x2F8B6 {
if v == 0x2F8B5 {
Some(vec!['\u{62B1}'])
} else {
None
}
} else {
if v == 0x2F8B6 {
Some(vec!['\u{62D4}'])
} else {
None
}
}
}
} else {
if v < 0x2F8B9 {
if v < 0x2F8B8 {
if v == 0x2F8B7 {
Some(vec!['\u{6350}'])
} else {
None
}
} else {
if v == 0x2F8B8 {
Some(vec!['\u{22B0C}'])
} else {
None
}
}
} else {
if v < 0x2F8BA {
if v == 0x2F8B9 {
Some(vec!['\u{633D}'])
} else {
None
}
} else {
if v == 0x2F8BA {
Some(vec!['\u{62FC}'])
} else {
None
}
}
}
}
}
}
} else {
if v < 0x2F8CB {
if v < 0x2F8C3 {
if v < 0x2F8BF {
if v < 0x2F8BD {
if v < 0x2F8BC {
if v == 0x2F8BB {
Some(vec!['\u{6368}'])
} else {
None
}
} else {
if v == 0x2F8BC {
Some(vec!['\u{6383}'])
} else {
None
}
}
} else {
if v < 0x2F8BE {
if v == 0x2F8BD {
Some(vec!['\u{63E4}'])
} else {
None
}
} else {
if v == 0x2F8BE {
Some(vec!['\u{22BF1}'])
} else {
None
}
}
}
} else {
if v < 0x2F8C1 {
if v < 0x2F8C0 {
if v == 0x2F8BF {
Some(vec!['\u{6422}'])
} else {
None
}
} else {
if v == 0x2F8C0 {
Some(vec!['\u{63C5}'])
} else {
None
}
}
} else {
if v < 0x2F8C2 {
if v == 0x2F8C1 {
Some(vec!['\u{63A9}'])
} else {
None
}
} else {
if v == 0x2F8C2 {
Some(vec!['\u{3A2E}'])
} else {
None
}
}
}
}
} else {
if v < 0x2F8C7 {
if v < 0x2F8C5 {
if v < 0x2F8C4 {
if v == 0x2F8C3 {
Some(vec!['\u{6469}'])
} else {
None
}
} else {
if v == 0x2F8C4 {
Some(vec!['\u{647E}'])
} else {
None
}
}
} else {
if v < 0x2F8C6 {
if v == 0x2F8C5 {
Some(vec!['\u{649D}'])
} else {
None
}
} else {
if v == 0x2F8C6 {
Some(vec!['\u{6477}'])
} else {
None
}
}
}
} else {
if v < 0x2F8C9 {
if v < 0x2F8C8 {
if v == 0x2F8C7 {
Some(vec!['\u{3A6C}'])
} else {
None
}
} else {
if v == 0x2F8C8 {
Some(vec!['\u{654F}'])
} else {
None
}
}
} else {
if v < 0x2F8CA {
if v == 0x2F8C9 {
Some(vec!['\u{656C}'])
} else {
None
}
} else {
if v == 0x2F8CA {
Some(vec!['\u{2300A}'])
} else {
None
}
}
}
}
}
} else {
if v < 0x2F8D3 {
if v < 0x2F8CF {
if v < 0x2F8CD {
if v < 0x2F8CC {
if v == 0x2F8CB {
Some(vec!['\u{65E3}'])
} else {
None
}
} else {
if v == 0x2F8CC {
Some(vec!['\u{66F8}'])
} else {
None
}
}
} else {
if v < 0x2F8CE {
if v == 0x2F8CD {
Some(vec!['\u{6649}'])
} else {
None
}
} else {
if v == 0x2F8CE {
Some(vec!['\u{3B19}'])
} else {
None
}
}
}
} else {
if v < 0x2F8D1 {
if v < 0x2F8D0 {
if v == 0x2F8CF {
Some(vec!['\u{6691}'])
} else {
None
}
} else {
if v == 0x2F8D0 {
Some(vec!['\u{3B08}'])
} else {
None
}
}
} else {
if v < 0x2F8D2 {
if v == 0x2F8D1 {
Some(vec!['\u{3AE4}'])
} else {
None
}
} else {
if v == 0x2F8D2 {
Some(vec!['\u{5192}'])
} else {
None
}
}
}
}
} else {
if v < 0x2F8D7 {
if v < 0x2F8D5 {
if v < 0x2F8D4 {
if v == 0x2F8D3 {
Some(vec!['\u{5195}'])
} else {
None
}
} else {
if v == 0x2F8D4 {
Some(vec!['\u{6700}'])
} else {
None
}
}
} else {
if v < 0x2F8D6 {
if v == 0x2F8D5 {
Some(vec!['\u{669C}'])
} else {
None
}
} else {
if v == 0x2F8D6 {
Some(vec!['\u{80AD}'])
} else {
None
}
}
}
} else {
if v < 0x2F8D9 {
if v < 0x2F8D8 {
if v == 0x2F8D7 {
Some(vec!['\u{43D9}'])
} else {
None
}
} else {
if v == 0x2F8D8 {
Some(vec!['\u{6717}'])
} else {
None
}
}
} else {
if v < 0x2F8DA {
if v == 0x2F8D9 {
Some(vec!['\u{671B}'])
} else {
None
}
} else {
if v == 0x2F8DA {
Some(vec!['\u{6721}'])
} else {
None
}
}
}
}
}
}
}
} else {
if v < 0x2F8FB {
if v < 0x2F8EB {
if v < 0x2F8E3 {
if v < 0x2F8DF {
if v < 0x2F8DD {
if v < 0x2F8DC {
if v == 0x2F8DB {
Some(vec!['\u{675E}'])
} else {
None
}
} else {
if v == 0x2F8DC {
Some(vec!['\u{6753}'])
} else {
None
}
}
} else {
if v < 0x2F8DE {
if v == 0x2F8DD {
Some(vec!['\u{233C3}'])
} else {
None
}
} else {
if v == 0x2F8DE {
Some(vec!['\u{3B49}'])
} else {
None
}
}
}
} else {
if v < 0x2F8E1 {
if v < 0x2F8E0 {
if v == 0x2F8DF {
Some(vec!['\u{67FA}'])
} else {
None
}
} else {
if v == 0x2F8E0 {
Some(vec!['\u{6785}'])
} else {
None
}
}
} else {
if v < 0x2F8E2 {
if v == 0x2F8E1 {
Some(vec!['\u{6852}'])
} else {
None
}
} else {
if v == 0x2F8E2 {
Some(vec!['\u{6885}'])
} else {
None
}
}
}
}
} else {
if v < 0x2F8E7 {
if v < 0x2F8E5 {
if v < 0x2F8E4 {
if v == 0x2F8E3 {
Some(vec!['\u{2346D}'])
} else {
None
}
} else {
if v == 0x2F8E4 {
Some(vec!['\u{688E}'])
} else {
None
}
}
} else {
if v < 0x2F8E6 {
if v == 0x2F8E5 {
Some(vec!['\u{681F}'])
} else {
None
}
} else {
if v == 0x2F8E6 {
Some(vec!['\u{6914}'])
} else {
None
}
}
}
} else {
if v < 0x2F8E9 {
if v < 0x2F8E8 {
if v == 0x2F8E7 {
Some(vec!['\u{3B9D}'])
} else {
None
}
} else {
if v == 0x2F8E8 {
Some(vec!['\u{6942}'])
} else {
None
}
}
} else {
if v < 0x2F8EA {
if v == 0x2F8E9 {
Some(vec!['\u{69A3}'])
} else {
None
}
} else {
if v == 0x2F8EA {
Some(vec!['\u{69EA}'])
} else {
None
}
}
}
}
}
} else {
if v < 0x2F8F3 {
if v < 0x2F8EF {
if v < 0x2F8ED {
if v < 0x2F8EC {
if v == 0x2F8EB {
Some(vec!['\u{6AA8}'])
} else {
None
}
} else {
if v == 0x2F8EC {
Some(vec!['\u{236A3}'])
} else {
None
}
}
} else {
if v < 0x2F8EE {
if v == 0x2F8ED {
Some(vec!['\u{6ADB}'])
} else {
None
}
} else {
if v == 0x2F8EE {
Some(vec!['\u{3C18}'])
} else {
None
}
}
}
} else {
if v < 0x2F8F1 {
if v < 0x2F8F0 {
if v == 0x2F8EF {
Some(vec!['\u{6B21}'])
} else {
None
}
} else {
if v == 0x2F8F0 {
Some(vec!['\u{238A7}'])
} else {
None
}
}
} else {
if v < 0x2F8F2 {
if v == 0x2F8F1 {
Some(vec!['\u{6B54}'])
} else {
None
}
} else {
if v == 0x2F8F2 {
Some(vec!['\u{3C4E}'])
} else {
None
}
}
}
}
} else {
if v < 0x2F8F7 {
if v < 0x2F8F5 {
if v < 0x2F8F4 {
if v == 0x2F8F3 {
Some(vec!['\u{6B72}'])
} else {
None
}
} else {
if v == 0x2F8F4 {
Some(vec!['\u{6B9F}'])
} else {
None
}
}
} else {
if v < 0x2F8F6 {
if v == 0x2F8F5 {
Some(vec!['\u{6BBA}'])
} else {
None
}
} else {
if v == 0x2F8F6 {
Some(vec!['\u{6BBB}'])
} else {
None
}
}
}
} else {
if v < 0x2F8F9 {
if v < 0x2F8F8 {
if v == 0x2F8F7 {
Some(vec!['\u{23A8D}'])
} else {
None
}
} else {
if v == 0x2F8F8 {
Some(vec!['\u{21D0B}'])
} else {
None
}
}
} else {
if v < 0x2F8FA {
if v == 0x2F8F9 {
Some(vec!['\u{23AFA}'])
} else {
None
}
} else {
if v == 0x2F8FA {
Some(vec!['\u{6C4E}'])
} else {
None
}
}
}
}
}
}
} else {
if v < 0x2F90B {
if v < 0x2F903 {
if v < 0x2F8FF {
if v < 0x2F8FD {
if v < 0x2F8FC {
if v == 0x2F8FB {
Some(vec!['\u{23CBC}'])
} else {
None
}
} else {
if v == 0x2F8FC {
Some(vec!['\u{6CBF}'])
} else {
None
}
}
} else {
if v < 0x2F8FE {
if v == 0x2F8FD {
Some(vec!['\u{6CCD}'])
} else {
None
}
} else {
if v == 0x2F8FE {
Some(vec!['\u{6C67}'])
} else {
None
}
}
}
} else {
if v < 0x2F901 {
if v < 0x2F900 {
if v == 0x2F8FF {
Some(vec!['\u{6D16}'])
} else {
None
}
} else {
if v == 0x2F900 {
Some(vec!['\u{6D3E}'])
} else {
None
}
}
} else {
if v < 0x2F902 {
if v == 0x2F901 {
Some(vec!['\u{6D77}'])
} else {
None
}
} else {
if v == 0x2F902 {
Some(vec!['\u{6D41}'])
} else {
None
}
}
}
}
} else {
if v < 0x2F907 {
if v < 0x2F905 {
if v < 0x2F904 {
if v == 0x2F903 {
Some(vec!['\u{6D69}'])
} else {
None
}
} else {
if v == 0x2F904 {
Some(vec!['\u{6D78}'])
} else {
None
}
}
} else {
if v < 0x2F906 {
if v == 0x2F905 {
Some(vec!['\u{6D85}'])
} else {
None
}
} else {
if v == 0x2F906 {
Some(vec!['\u{23D1E}'])
} else {
None
}
}
}
} else {
if v < 0x2F909 {
if v < 0x2F908 {
if v == 0x2F907 {
Some(vec!['\u{6D34}'])
} else {
None
}
} else {
if v == 0x2F908 {
Some(vec!['\u{6E2F}'])
} else {
None
}
}
} else {
if v < 0x2F90A {
if v == 0x2F909 {
Some(vec!['\u{6E6E}'])
} else {
None
}
} else {
if v == 0x2F90A {
Some(vec!['\u{3D33}'])
} else {
None
}
}
}
}
}
} else {
if v < 0x2F913 {
if v < 0x2F90F {
if v < 0x2F90D {
if v < 0x2F90C {
if v == 0x2F90B {
Some(vec!['\u{6ECB}'])
} else {
None
}
} else {
if v == 0x2F90C {
Some(vec!['\u{6EC7}'])
} else {
None
}
}
} else {
if v < 0x2F90E {
if v == 0x2F90D {
Some(vec!['\u{23ED1}'])
} else {
None
}
} else {
if v == 0x2F90E {
Some(vec!['\u{6DF9}'])
} else {
None
}
}
}
} else {
if v < 0x2F911 {
if v < 0x2F910 {
if v == 0x2F90F {
Some(vec!['\u{6F6E}'])
} else {
None
}
} else {
if v == 0x2F910 {
Some(vec!['\u{23F5E}'])
} else {
None
}
}
} else {
if v < 0x2F912 {
if v == 0x2F911 {
Some(vec!['\u{23F8E}'])
} else {
None
}
} else {
if v == 0x2F912 {
Some(vec!['\u{6FC6}'])
} else {
None
}
}
}
}
} else {
if v < 0x2F917 {
if v < 0x2F915 {
if v < 0x2F914 {
if v == 0x2F913 {
Some(vec!['\u{7039}'])
} else {
None
}
} else {
if v == 0x2F914 {
Some(vec!['\u{701E}'])
} else {
None
}
}
} else {
if v < 0x2F916 {
if v == 0x2F915 {
Some(vec!['\u{701B}'])
} else {
None
}
} else {
if v == 0x2F916 {
Some(vec!['\u{3D96}'])
} else {
None
}
}
}
} else {
if v < 0x2F919 {
if v < 0x2F918 {
if v == 0x2F917 {
Some(vec!['\u{704A}'])
} else {
None
}
} else {
if v == 0x2F918 {
Some(vec!['\u{707D}'])
} else {
None
}
}
} else {
if v < 0x2F91A {
if v == 0x2F919 {
Some(vec!['\u{7077}'])
} else {
None
}
} else {
if v < 0x2F91B {
if v == 0x2F91A {
Some(vec!['\u{70AD}'])
} else {
None
}
} else {
if v == 0x2F91B {
Some(vec!['\u{20525}'])
} else {
None
}
}
}
}
}
}
}
}
}
}
} else {
if v < 0x2F99D {
if v < 0x2F95C {
if v < 0x2F93C {
if v < 0x2F92C {
if v < 0x2F924 {
if v < 0x2F920 {
if v < 0x2F91E {
if v < 0x2F91D {
if v == 0x2F91C {
Some(vec!['\u{7145}'])
} else {
None
}
} else {
if v == 0x2F91D {
Some(vec!['\u{24263}'])
} else {
None
}
}
} else {
if v < 0x2F91F {
if v == 0x2F91E {
Some(vec!['\u{719C}'])
} else {
None
}
} else {
if v == 0x2F91F {
Some(vec!['\u{243AB}'])
} else {
None
}
}
}
} else {
if v < 0x2F922 {
if v < 0x2F921 {
if v == 0x2F920 {
Some(vec!['\u{7228}'])
} else {
None
}
} else {
if v == 0x2F921 {
Some(vec!['\u{7235}'])
} else {
None
}
}
} else {
if v < 0x2F923 {
if v == 0x2F922 {
Some(vec!['\u{7250}'])
} else {
None
}
} else {
if v == 0x2F923 {
Some(vec!['\u{24608}'])
} else {
None
}
}
}
}
} else {
if v < 0x2F928 {
if v < 0x2F926 {
if v < 0x2F925 {
if v == 0x2F924 {
Some(vec!['\u{7280}'])
} else {
None
}
} else {
if v == 0x2F925 {
Some(vec!['\u{7295}'])
} else {
None
}
}
} else {
if v < 0x2F927 {
if v == 0x2F926 {
Some(vec!['\u{24735}'])
} else {
None
}
} else {
if v == 0x2F927 {
Some(vec!['\u{24814}'])
} else {
None
}
}
}
} else {
if v < 0x2F92A {
if v < 0x2F929 {
if v == 0x2F928 {
Some(vec!['\u{737A}'])
} else {
None
}
} else {
if v == 0x2F929 {
Some(vec!['\u{738B}'])
} else {
None
}
}
} else {
if v < 0x2F92B {
if v == 0x2F92A {
Some(vec!['\u{3EAC}'])
} else {
None
}
} else {
if v == 0x2F92B {
Some(vec!['\u{73A5}'])
} else {
None
}
}
}
}
}
} else {
if v < 0x2F934 {
if v < 0x2F930 {
if v < 0x2F92E {
if v < 0x2F92D {
if v == 0x2F92C {
Some(vec!['\u{3EB8}'])
} else {
None
}
} else {
if v == 0x2F92D {
Some(vec!['\u{3EB8}'])
} else {
None
}
}
} else {
if v < 0x2F92F {
if v == 0x2F92E {
Some(vec!['\u{7447}'])
} else {
None
}
} else {
if v == 0x2F92F {
Some(vec!['\u{745C}'])
} else {
None
}
}
}
} else {
if v < 0x2F932 {
if v < 0x2F931 {
if v == 0x2F930 {
Some(vec!['\u{7471}'])
} else {
None
}
} else {
if v == 0x2F931 {
Some(vec!['\u{7485}'])
} else {
None
}
}
} else {
if v < 0x2F933 {
if v == 0x2F932 {
Some(vec!['\u{74CA}'])
} else {
None
}
} else {
if v == 0x2F933 {
Some(vec!['\u{3F1B}'])
} else {
None
}
}
}
}
} else {
if v < 0x2F938 {
if v < 0x2F936 {
if v < 0x2F935 {
if v == 0x2F934 {
Some(vec!['\u{7524}'])
} else {
None
}
} else {
if v == 0x2F935 {
Some(vec!['\u{24C36}'])
} else {
None
}
}
} else {
if v < 0x2F937 {
if v == 0x2F936 {
Some(vec!['\u{753E}'])
} else {
None
}
} else {
if v == 0x2F937 {
Some(vec!['\u{24C92}'])
} else {
None
}
}
}
} else {
if v < 0x2F93A {
if v < 0x2F939 {
if v == 0x2F938 {
Some(vec!['\u{7570}'])
} else {
None
}
} else {
if v == 0x2F939 {
Some(vec!['\u{2219F}'])
} else {
None
}
}
} else {
if v < 0x2F93B {
if v == 0x2F93A {
Some(vec!['\u{7610}'])
} else {
None
}
} else {
if v == 0x2F93B {
Some(vec!['\u{24FA1}'])
} else {
None
}
}
}
}
}
}
} else {
if v < 0x2F94C {
if v < 0x2F944 {
if v < 0x2F940 {
if v < 0x2F93E {
if v < 0x2F93D {
if v == 0x2F93C {
Some(vec!['\u{24FB8}'])
} else {
None
}
} else {
if v == 0x2F93D {
Some(vec!['\u{25044}'])
} else {
None
}
}
} else {
if v < 0x2F93F {
if v == 0x2F93E {
Some(vec!['\u{3FFC}'])
} else {
None
}
} else {
if v == 0x2F93F {
Some(vec!['\u{4008}'])
} else {
None
}
}
}
} else {
if v < 0x2F942 {
if v < 0x2F941 {
if v == 0x2F940 {
Some(vec!['\u{76F4}'])
} else {
None
}
} else {
if v == 0x2F941 {
Some(vec!['\u{250F3}'])
} else {
None
}
}
} else {
if v < 0x2F943 {
if v == 0x2F942 {
Some(vec!['\u{250F2}'])
} else {
None
}
} else {
if v == 0x2F943 {
Some(vec!['\u{25119}'])
} else {
None
}
}
}
}
} else {
if v < 0x2F948 {
if v < 0x2F946 {
if v < 0x2F945 {
if v == 0x2F944 {
Some(vec!['\u{25133}'])
} else {
None
}
} else {
if v == 0x2F945 {
Some(vec!['\u{771E}'])
} else {
None
}
}
} else {
if v < 0x2F947 {
if v == 0x2F946 {
Some(vec!['\u{771F}'])
} else {
None
}
} else {
if v == 0x2F947 {
Some(vec!['\u{771F}'])
} else {
None
}
}
}
} else {
if v < 0x2F94A {
if v < 0x2F949 {
if v == 0x2F948 {
Some(vec!['\u{774A}'])
} else {
None
}
} else {
if v == 0x2F949 {
Some(vec!['\u{4039}'])
} else {
None
}
}
} else {
if v < 0x2F94B {
if v == 0x2F94A {
Some(vec!['\u{778B}'])
} else {
None
}
} else {
if v == 0x2F94B {
Some(vec!['\u{4046}'])
} else {
None
}
}
}
}
}
} else {
if v < 0x2F954 {
if v < 0x2F950 {
if v < 0x2F94E {
if v < 0x2F94D {
if v == 0x2F94C {
Some(vec!['\u{4096}'])
} else {
None
}
} else {
if v == 0x2F94D {
Some(vec!['\u{2541D}'])
} else {
None
}
}
} else {
if v < 0x2F94F {
if v == 0x2F94E {
Some(vec!['\u{784E}'])
} else {
None
}
} else {
if v == 0x2F94F {
Some(vec!['\u{788C}'])
} else {
None
}
}
}
} else {
if v < 0x2F952 {
if v < 0x2F951 {
if v == 0x2F950 {
Some(vec!['\u{78CC}'])
} else {
None
}
} else {
if v == 0x2F951 {
Some(vec!['\u{40E3}'])
} else {
None
}
}
} else {
if v < 0x2F953 {
if v == 0x2F952 {
Some(vec!['\u{25626}'])
} else {
None
}
} else {
if v == 0x2F953 {
Some(vec!['\u{7956}'])
} else {
None
}
}
}
}
} else {
if v < 0x2F958 {
if v < 0x2F956 {
if v < 0x2F955 {
if v == 0x2F954 {
Some(vec!['\u{2569A}'])
} else {
None
}
} else {
if v == 0x2F955 {
Some(vec!['\u{256C5}'])
} else {
None
}
}
} else {
if v < 0x2F957 {
if v == 0x2F956 {
Some(vec!['\u{798F}'])
} else {
None
}
} else {
if v == 0x2F957 {
Some(vec!['\u{79EB}'])
} else {
None
}
}
}
} else {
if v < 0x2F95A {
if v < 0x2F959 {
if v == 0x2F958 {
Some(vec!['\u{412F}'])
} else {
None
}
} else {
if v == 0x2F959 {
Some(vec!['\u{7A40}'])
} else {
None
}
}
} else {
if v < 0x2F95B {
if v == 0x2F95A {
Some(vec!['\u{7A4A}'])
} else {
None
}
} else {
if v == 0x2F95B {
Some(vec!['\u{7A4F}'])
} else {
None
}
}
}
}
}
}
}
} else {
if v < 0x2F97C {
if v < 0x2F96C {
if v < 0x2F964 {
if v < 0x2F960 {
if v < 0x2F95E {
if v < 0x2F95D {
if v == 0x2F95C {
Some(vec!['\u{2597C}'])
} else {
None
}
} else {
if v == 0x2F95D {
Some(vec!['\u{25AA7}'])
} else {
None
}
}
} else {
if v < 0x2F95F {
if v == 0x2F95E {
Some(vec!['\u{25AA7}'])
} else {
None
}
} else {
if v == 0x2F95F {
Some(vec!['\u{7AEE}'])
} else {
None
}
}
}
} else {
if v < 0x2F962 {
if v < 0x2F961 {
if v == 0x2F960 {
Some(vec!['\u{4202}'])
} else {
None
}
} else {
if v == 0x2F961 {
Some(vec!['\u{25BAB}'])
} else {
None
}
}
} else {
if v < 0x2F963 {
if v == 0x2F962 {
Some(vec!['\u{7BC6}'])
} else {
None
}
} else {
if v == 0x2F963 {
Some(vec!['\u{7BC9}'])
} else {
None
}
}
}
}
} else {
if v < 0x2F968 {
if v < 0x2F966 {
if v < 0x2F965 {
if v == 0x2F964 {
Some(vec!['\u{4227}'])
} else {
None
}
} else {
if v == 0x2F965 {
Some(vec!['\u{25C80}'])
} else {
None
}
}
} else {
if v < 0x2F967 {
if v == 0x2F966 {
Some(vec!['\u{7CD2}'])
} else {
None
}
} else {
if v == 0x2F967 {
Some(vec!['\u{42A0}'])
} else {
None
}
}
}
} else {
if v < 0x2F96A {
if v < 0x2F969 {
if v == 0x2F968 {
Some(vec!['\u{7CE8}'])
} else {
None
}
} else {
if v == 0x2F969 {
Some(vec!['\u{7CE3}'])
} else {
None
}
}
} else {
if v < 0x2F96B {
if v == 0x2F96A {
Some(vec!['\u{7D00}'])
} else {
None
}
} else {
if v == 0x2F96B {
Some(vec!['\u{25F86}'])
} else {
None
}
}
}
}
}
} else {
if v < 0x2F974 {
if v < 0x2F970 {
if v < 0x2F96E {
if v < 0x2F96D {
if v == 0x2F96C {
Some(vec!['\u{7D63}'])
} else {
None
}
} else {
if v == 0x2F96D {
Some(vec!['\u{4301}'])
} else {
None
}
}
} else {
if v < 0x2F96F {
if v == 0x2F96E {
Some(vec!['\u{7DC7}'])
} else {
None
}
} else {
if v == 0x2F96F {
Some(vec!['\u{7E02}'])
} else {
None
}
}
}
} else {
if v < 0x2F972 {
if v < 0x2F971 {
if v == 0x2F970 {
Some(vec!['\u{7E45}'])
} else {
None
}
} else {
if v == 0x2F971 {
Some(vec!['\u{4334}'])
} else {
None
}
}
} else {
if v < 0x2F973 {
if v == 0x2F972 {
Some(vec!['\u{26228}'])
} else {
None
}
} else {
if v == 0x2F973 {
Some(vec!['\u{26247}'])
} else {
None
}
}
}
}
} else {
if v < 0x2F978 {
if v < 0x2F976 {
if v < 0x2F975 {
if v == 0x2F974 {
Some(vec!['\u{4359}'])
} else {
None
}
} else {
if v == 0x2F975 {
Some(vec!['\u{262D9}'])
} else {
None
}
}
} else {
if v < 0x2F977 {
if v == 0x2F976 {
Some(vec!['\u{7F7A}'])
} else {
None
}
} else {
if v == 0x2F977 {
Some(vec!['\u{2633E}'])
} else {
None
}
}
}
} else {
if v < 0x2F97A {
if v < 0x2F979 {
if v == 0x2F978 {
Some(vec!['\u{7F95}'])
} else {
None
}
} else {
if v == 0x2F979 {
Some(vec!['\u{7FFA}'])
} else {
None
}
}
} else {
if v < 0x2F97B {
if v == 0x2F97A {
Some(vec!['\u{8005}'])
} else {
None
}
} else {
if v == 0x2F97B {
Some(vec!['\u{264DA}'])
} else {
None
}
}
}
}
}
}
} else {
if v < 0x2F98C {
if v < 0x2F984 {
if v < 0x2F980 {
if v < 0x2F97E {
if v < 0x2F97D {
if v == 0x2F97C {
Some(vec!['\u{26523}'])
} else {
None
}
} else {
if v == 0x2F97D {
Some(vec!['\u{8060}'])
} else {
None
}
}
} else {
if v < 0x2F97F {
if v == 0x2F97E {
Some(vec!['\u{265A8}'])
} else {
None
}
} else {
if v == 0x2F97F {
Some(vec!['\u{8070}'])
} else {
None
}
}
}
} else {
if v < 0x2F982 {
if v < 0x2F981 {
if v == 0x2F980 {
Some(vec!['\u{2335F}'])
} else {
None
}
} else {
if v == 0x2F981 {
Some(vec!['\u{43D5}'])
} else {
None
}
}
} else {
if v < 0x2F983 {
if v == 0x2F982 {
Some(vec!['\u{80B2}'])
} else {
None
}
} else {
if v == 0x2F983 {
Some(vec!['\u{8103}'])
} else {
None
}
}
}
}
} else {
if v < 0x2F988 {
if v < 0x2F986 {
if v < 0x2F985 {
if v == 0x2F984 {
Some(vec!['\u{440B}'])
} else {
None
}
} else {
if v == 0x2F985 {
Some(vec!['\u{813E}'])
} else {
None
}
}
} else {
if v < 0x2F987 {
if v == 0x2F986 {
Some(vec!['\u{5AB5}'])
} else {
None
}
} else {
if v == 0x2F987 {
Some(vec!['\u{267A7}'])
} else {
None
}
}
}
} else {
if v < 0x2F98A {
if v < 0x2F989 {
if v == 0x2F988 {
Some(vec!['\u{267B5}'])
} else {
None
}
} else {
if v == 0x2F989 {
Some(vec!['\u{23393}'])
} else {
None
}
}
} else {
if v < 0x2F98B {
if v == 0x2F98A {
Some(vec!['\u{2339C}'])
} else {
None
}
} else {
if v == 0x2F98B {
Some(vec!['\u{8201}'])
} else {
None
}
}
}
}
}
} else {
if v < 0x2F994 {
if v < 0x2F990 {
if v < 0x2F98E {
if v < 0x2F98D {
if v == 0x2F98C {
Some(vec!['\u{8204}'])
} else {
None
}
} else {
if v == 0x2F98D {
Some(vec!['\u{8F9E}'])
} else {
None
}
}
} else {
if v < 0x2F98F {
if v == 0x2F98E {
Some(vec!['\u{446B}'])
} else {
None
}
} else {
if v == 0x2F98F {
Some(vec!['\u{8291}'])
} else {
None
}
}
}
} else {
if v < 0x2F992 {
if v < 0x2F991 {
if v == 0x2F990 {
Some(vec!['\u{828B}'])
} else {
None
}
} else {
if v == 0x2F991 {
Some(vec!['\u{829D}'])
} else {
None
}
}
} else {
if v < 0x2F993 {
if v == 0x2F992 {
Some(vec!['\u{52B3}'])
} else {
None
}
} else {
if v == 0x2F993 {
Some(vec!['\u{82B1}'])
} else {
None
}
}
}
}
} else {
if v < 0x2F998 {
if v < 0x2F996 {
if v < 0x2F995 {
if v == 0x2F994 {
Some(vec!['\u{82B3}'])
} else {
None
}
} else {
if v == 0x2F995 {
Some(vec!['\u{82BD}'])
} else {
None
}
}
} else {
if v < 0x2F997 {
if v == 0x2F996 {
Some(vec!['\u{82E6}'])
} else {
None
}
} else {
if v == 0x2F997 {
Some(vec!['\u{26B3C}'])
} else {
None
}
}
}
} else {
if v < 0x2F99A {
if v < 0x2F999 {
if v == 0x2F998 {
Some(vec!['\u{82E5}'])
} else {
None
}
} else {
if v == 0x2F999 {
Some(vec!['\u{831D}'])
} else {
None
}
}
} else {
if v < 0x2F99B {
if v == 0x2F99A {
Some(vec!['\u{8363}'])
} else {
None
}
} else {
if v < 0x2F99C {
if v == 0x2F99B {
Some(vec!['\u{83AD}'])
} else {
None
}
} else {
if v == 0x2F99C {
Some(vec!['\u{8323}'])
} else {
None
}
}
}
}
}
}
}
}
}
} else {
if v < 0x2F9DD {
if v < 0x2F9BD {
if v < 0x2F9AD {
if v < 0x2F9A5 {
if v < 0x2F9A1 {
if v < 0x2F99F {
if v < 0x2F99E {
if v == 0x2F99D {
Some(vec!['\u{83BD}'])
} else {
None
}
} else {
if v == 0x2F99E {
Some(vec!['\u{83E7}'])
} else {
None
}
}
} else {
if v < 0x2F9A0 {
if v == 0x2F99F {
Some(vec!['\u{8457}'])
} else {
None
}
} else {
if v == 0x2F9A0 {
Some(vec!['\u{8353}'])
} else {
None
}
}
}
} else {
if v < 0x2F9A3 {
if v < 0x2F9A2 {
if v == 0x2F9A1 {
Some(vec!['\u{83CA}'])
} else {
None
}
} else {
if v == 0x2F9A2 {
Some(vec!['\u{83CC}'])
} else {
None
}
}
} else {
if v < 0x2F9A4 {
if v == 0x2F9A3 {
Some(vec!['\u{83DC}'])
} else {
None
}
} else {
if v == 0x2F9A4 {
Some(vec!['\u{26C36}'])
} else {
None
}
}
}
}
} else {
if v < 0x2F9A9 {
if v < 0x2F9A7 {
if v < 0x2F9A6 {
if v == 0x2F9A5 {
Some(vec!['\u{26D6B}'])
} else {
None
}
} else {
if v == 0x2F9A6 {
Some(vec!['\u{26CD5}'])
} else {
None
}
}
} else {
if v < 0x2F9A8 {
if v == 0x2F9A7 {
Some(vec!['\u{452B}'])
} else {
None
}
} else {
if v == 0x2F9A8 {
Some(vec!['\u{84F1}'])
} else {
None
}
}
}
} else {
if v < 0x2F9AB {
if v < 0x2F9AA {
if v == 0x2F9A9 {
Some(vec!['\u{84F3}'])
} else {
None
}
} else {
if v == 0x2F9AA {
Some(vec!['\u{8516}'])
} else {
None
}
}
} else {
if v < 0x2F9AC {
if v == 0x2F9AB {
Some(vec!['\u{273CA}'])
} else {
None
}
} else {
if v == 0x2F9AC {
Some(vec!['\u{8564}'])
} else {
None
}
}
}
}
}
} else {
if v < 0x2F9B5 {
if v < 0x2F9B1 {
if v < 0x2F9AF {
if v < 0x2F9AE {
if v == 0x2F9AD {
Some(vec!['\u{26F2C}'])
} else {
None
}
} else {
if v == 0x2F9AE {
Some(vec!['\u{455D}'])
} else {
None
}
}
} else {
if v < 0x2F9B0 {
if v == 0x2F9AF {
Some(vec!['\u{4561}'])
} else {
None
}
} else {
if v == 0x2F9B0 {
Some(vec!['\u{26FB1}'])
} else {
None
}
}
}
} else {
if v < 0x2F9B3 {
if v < 0x2F9B2 {
if v == 0x2F9B1 {
Some(vec!['\u{270D2}'])
} else {
None
}
} else {
if v == 0x2F9B2 {
Some(vec!['\u{456B}'])
} else {
None
}
}
} else {
if v < 0x2F9B4 {
if v == 0x2F9B3 {
Some(vec!['\u{8650}'])
} else {
None
}
} else {
if v == 0x2F9B4 {
Some(vec!['\u{865C}'])
} else {
None
}
}
}
}
} else {
if v < 0x2F9B9 {
if v < 0x2F9B7 {
if v < 0x2F9B6 {
if v == 0x2F9B5 {
Some(vec!['\u{8667}'])
} else {
None
}
} else {
if v == 0x2F9B6 {
Some(vec!['\u{8669}'])
} else {
None
}
}
} else {
if v < 0x2F9B8 {
if v == 0x2F9B7 {
Some(vec!['\u{86A9}'])
} else {
None
}
} else {
if v == 0x2F9B8 {
Some(vec!['\u{8688}'])
} else {
None
}
}
}
} else {
if v < 0x2F9BB {
if v < 0x2F9BA {
if v == 0x2F9B9 {
Some(vec!['\u{870E}'])
} else {
None
}
} else {
if v == 0x2F9BA {
Some(vec!['\u{86E2}'])
} else {
None
}
}
} else {
if v < 0x2F9BC {
if v == 0x2F9BB {
Some(vec!['\u{8779}'])
} else {
None
}
} else {
if v == 0x2F9BC {
Some(vec!['\u{8728}'])
} else {
None
}
}
}
}
}
}
} else {
if v < 0x2F9CD {
if v < 0x2F9C5 {
if v < 0x2F9C1 {
if v < 0x2F9BF {
if v < 0x2F9BE {
if v == 0x2F9BD {
Some(vec!['\u{876B}'])
} else {
None
}
} else {
if v == 0x2F9BE {
Some(vec!['\u{8786}'])
} else {
None
}
}
} else {
if v < 0x2F9C0 {
if v == 0x2F9BF {
Some(vec!['\u{45D7}'])
} else {
None
}
} else {
if v == 0x2F9C0 {
Some(vec!['\u{87E1}'])
} else {
None
}
}
}
} else {
if v < 0x2F9C3 {
if v < 0x2F9C2 {
if v == 0x2F9C1 {
Some(vec!['\u{8801}'])
} else {
None
}
} else {
if v == 0x2F9C2 {
Some(vec!['\u{45F9}'])
} else {
None
}
}
} else {
if v < 0x2F9C4 {
if v == 0x2F9C3 {
Some(vec!['\u{8860}'])
} else {
None
}
} else {
if v == 0x2F9C4 {
Some(vec!['\u{8863}'])
} else {
None
}
}
}
}
} else {
if v < 0x2F9C9 {
if v < 0x2F9C7 {
if v < 0x2F9C6 {
if v == 0x2F9C5 {
Some(vec!['\u{27667}'])
} else {
None
}
} else {
if v == 0x2F9C6 {
Some(vec!['\u{88D7}'])
} else {
None
}
}
} else {
if v < 0x2F9C8 {
if v == 0x2F9C7 {
Some(vec!['\u{88DE}'])
} else {
None
}
} else {
if v == 0x2F9C8 {
Some(vec!['\u{4635}'])
} else {
None
}
}
}
} else {
if v < 0x2F9CB {
if v < 0x2F9CA {
if v == 0x2F9C9 {
Some(vec!['\u{88FA}'])
} else {
None
}
} else {
if v == 0x2F9CA {
Some(vec!['\u{34BB}'])
} else {
None
}
}
} else {
if v < 0x2F9CC {
if v == 0x2F9CB {
Some(vec!['\u{278AE}'])
} else {
None
}
} else {
if v == 0x2F9CC {
Some(vec!['\u{27966}'])
} else {
None
}
}
}
}
}
} else {
if v < 0x2F9D5 {
if v < 0x2F9D1 {
if v < 0x2F9CF {
if v < 0x2F9CE {
if v == 0x2F9CD {
Some(vec!['\u{46BE}'])
} else {
None
}
} else {
if v == 0x2F9CE {
Some(vec!['\u{46C7}'])
} else {
None
}
}
} else {
if v < 0x2F9D0 {
if v == 0x2F9CF {
Some(vec!['\u{8AA0}'])
} else {
None
}
} else {
if v == 0x2F9D0 {
Some(vec!['\u{8AED}'])
} else {
None
}
}
}
} else {
if v < 0x2F9D3 {
if v < 0x2F9D2 {
if v == 0x2F9D1 {
Some(vec!['\u{8B8A}'])
} else {
None
}
} else {
if v == 0x2F9D2 {
Some(vec!['\u{8C55}'])
} else {
None
}
}
} else {
if v < 0x2F9D4 {
if v == 0x2F9D3 {
Some(vec!['\u{27CA8}'])
} else {
None
}
} else {
if v == 0x2F9D4 {
Some(vec!['\u{8CAB}'])
} else {
None
}
}
}
}
} else {
if v < 0x2F9D9 {
if v < 0x2F9D7 {
if v < 0x2F9D6 {
if v == 0x2F9D5 {
Some(vec!['\u{8CC1}'])
} else {
None
}
} else {
if v == 0x2F9D6 {
Some(vec!['\u{8D1B}'])
} else {
None
}
}
} else {
if v < 0x2F9D8 {
if v == 0x2F9D7 {
Some(vec!['\u{8D77}'])
} else {
None
}
} else {
if v == 0x2F9D8 {
Some(vec!['\u{27F2F}'])
} else {
None
}
}
}
} else {
if v < 0x2F9DB {
if v < 0x2F9DA {
if v == 0x2F9D9 {
Some(vec!['\u{20804}'])
} else {
None
}
} else {
if v == 0x2F9DA {
Some(vec!['\u{8DCB}'])
} else {
None
}
}
} else {
if v < 0x2F9DC {
if v == 0x2F9DB {
Some(vec!['\u{8DBC}'])
} else {
None
}
} else {
if v == 0x2F9DC {
Some(vec!['\u{8DF0}'])
} else {
None
}
}
}
}
}
}
}
} else {
if v < 0x2F9FD {
if v < 0x2F9ED {
if v < 0x2F9E5 {
if v < 0x2F9E1 {
if v < 0x2F9DF {
if v < 0x2F9DE {
if v == 0x2F9DD {
Some(vec!['\u{208DE}'])
} else {
None
}
} else {
if v == 0x2F9DE {
Some(vec!['\u{8ED4}'])
} else {
None
}
}
} else {
if v < 0x2F9E0 {
if v == 0x2F9DF {
Some(vec!['\u{8F38}'])
} else {
None
}
} else {
if v == 0x2F9E0 {
Some(vec!['\u{285D2}'])
} else {
None
}
}
}
} else {
if v < 0x2F9E3 {
if v < 0x2F9E2 {
if v == 0x2F9E1 {
Some(vec!['\u{285ED}'])
} else {
None
}
} else {
if v == 0x2F9E2 {
Some(vec!['\u{9094}'])
} else {
None
}
}
} else {
if v < 0x2F9E4 {
if v == 0x2F9E3 {
Some(vec!['\u{90F1}'])
} else {
None
}
} else {
if v == 0x2F9E4 {
Some(vec!['\u{9111}'])
} else {
None
}
}
}
}
} else {
if v < 0x2F9E9 {
if v < 0x2F9E7 {
if v < 0x2F9E6 {
if v == 0x2F9E5 {
Some(vec!['\u{2872E}'])
} else {
None
}
} else {
if v == 0x2F9E6 {
Some(vec!['\u{911B}'])
} else {
None
}
}
} else {
if v < 0x2F9E8 {
if v == 0x2F9E7 {
Some(vec!['\u{9238}'])
} else {
None
}
} else {
if v == 0x2F9E8 {
Some(vec!['\u{92D7}'])
} else {
None
}
}
}
} else {
if v < 0x2F9EB {
if v < 0x2F9EA {
if v == 0x2F9E9 {
Some(vec!['\u{92D8}'])
} else {
None
}
} else {
if v == 0x2F9EA {
Some(vec!['\u{927C}'])
} else {
None
}
}
} else {
if v < 0x2F9EC {
if v == 0x2F9EB {
Some(vec!['\u{93F9}'])
} else {
None
}
} else {
if v == 0x2F9EC {
Some(vec!['\u{9415}'])
} else {
None
}
}
}
}
}
} else {
if v < 0x2F9F5 {
if v < 0x2F9F1 {
if v < 0x2F9EF {
if v < 0x2F9EE {
if v == 0x2F9ED {
Some(vec!['\u{28BFA}'])
} else {
None
}
} else {
if v == 0x2F9EE {
Some(vec!['\u{958B}'])
} else {
None
}
}
} else {
if v < 0x2F9F0 {
if v == 0x2F9EF {
Some(vec!['\u{4995}'])
} else {
None
}
} else {
if v == 0x2F9F0 {
Some(vec!['\u{95B7}'])
} else {
None
}
}
}
} else {
if v < 0x2F9F3 {
if v < 0x2F9F2 {
if v == 0x2F9F1 {
Some(vec!['\u{28D77}'])
} else {
None
}
} else {
if v == 0x2F9F2 {
Some(vec!['\u{49E6}'])
} else {
None
}
}
} else {
if v < 0x2F9F4 {
if v == 0x2F9F3 {
Some(vec!['\u{96C3}'])
} else {
None
}
} else {
if v == 0x2F9F4 {
Some(vec!['\u{5DB2}'])
} else {
None
}
}
}
}
} else {
if v < 0x2F9F9 {
if v < 0x2F9F7 {
if v < 0x2F9F6 {
if v == 0x2F9F5 {
Some(vec!['\u{9723}'])
} else {
None
}
} else {
if v == 0x2F9F6 {
Some(vec!['\u{29145}'])
} else {
None
}
}
} else {
if v < 0x2F9F8 {
if v == 0x2F9F7 {
Some(vec!['\u{2921A}'])
} else {
None
}
} else {
if v == 0x2F9F8 {
Some(vec!['\u{4A6E}'])
} else {
None
}
}
}
} else {
if v < 0x2F9FB {
if v < 0x2F9FA {
if v == 0x2F9F9 {
Some(vec!['\u{4A76}'])
} else {
None
}
} else {
if v == 0x2F9FA {
Some(vec!['\u{97E0}'])
} else {
None
}
}
} else {
if v < 0x2F9FC {
if v == 0x2F9FB {
Some(vec!['\u{2940A}'])
} else {
None
}
} else {
if v == 0x2F9FC {
Some(vec!['\u{4AB2}'])
} else {
None
}
}
}
}
}
}
} else {
if v < 0x2FA0D {
if v < 0x2FA05 {
if v < 0x2FA01 {
if v < 0x2F9FF {
if v < 0x2F9FE {
if v == 0x2F9FD {
Some(vec!['\u{29496}'])
} else {
None
}
} else {
if v == 0x2F9FE {
Some(vec!['\u{980B}'])
} else {
None
}
}
} else {
if v < 0x2FA00 {
if v == 0x2F9FF {
Some(vec!['\u{980B}'])
} else {
None
}
} else {
if v == 0x2FA00 {
Some(vec!['\u{9829}'])
} else {
None
}
}
}
} else {
if v < 0x2FA03 {
if v < 0x2FA02 {
if v == 0x2FA01 {
Some(vec!['\u{295B6}'])
} else {
None
}
} else {
if v == 0x2FA02 {
Some(vec!['\u{98E2}'])
} else {
None
}
}
} else {
if v < 0x2FA04 {
if v == 0x2FA03 {
Some(vec!['\u{4B33}'])
} else {
None
}
} else {
if v == 0x2FA04 {
Some(vec!['\u{9929}'])
} else {
None
}
}
}
}
} else {
if v < 0x2FA09 {
if v < 0x2FA07 {
if v < 0x2FA06 {
if v == 0x2FA05 {
Some(vec!['\u{99A7}'])
} else {
None
}
} else {
if v == 0x2FA06 {
Some(vec!['\u{99C2}'])
} else {
None
}
}
} else {
if v < 0x2FA08 {
if v == 0x2FA07 {
Some(vec!['\u{99FE}'])
} else {
None
}
} else {
if v == 0x2FA08 {
Some(vec!['\u{4BCE}'])
} else {
None
}
}
}
} else {
if v < 0x2FA0B {
if v < 0x2FA0A {
if v == 0x2FA09 {
Some(vec!['\u{29B30}'])
} else {
None
}
} else {
if v == 0x2FA0A {
Some(vec!['\u{9B12}'])
} else {
None
}
}
} else {
if v < 0x2FA0C {
if v == 0x2FA0B {
Some(vec!['\u{9C40}'])
} else {
None
}
} else {
if v == 0x2FA0C {
Some(vec!['\u{9CFD}'])
} else {
None
}
}
}
}
}
} else {
if v < 0x2FA15 {
if v < 0x2FA11 {
if v < 0x2FA0F {
if v < 0x2FA0E {
if v == 0x2FA0D {
Some(vec!['\u{4CCE}'])
} else {
None
}
} else {
if v == 0x2FA0E {
Some(vec!['\u{4CED}'])
} else {
None
}
}
} else {
if v < 0x2FA10 {
if v == 0x2FA0F {
Some(vec!['\u{9D67}'])
} else {
None
}
} else {
if v == 0x2FA10 {
Some(vec!['\u{2A0CE}'])
} else {
None
}
}
}
} else {
if v < 0x2FA13 {
if v < 0x2FA12 {
if v == 0x2FA11 {
Some(vec!['\u{4CF8}'])
} else {
None
}
} else {
if v == 0x2FA12 {
Some(vec!['\u{2A105}'])
} else {
None
}
}
} else {
if v < 0x2FA14 {
if v == 0x2FA13 {
Some(vec!['\u{2A20E}'])
} else {
None
}
} else {
if v == 0x2FA14 {
Some(vec!['\u{2A291}'])
} else {
None
}
}
}
}
} else {
if v < 0x2FA19 {
if v < 0x2FA17 {
if v < 0x2FA16 {
if v == 0x2FA15 {
Some(vec!['\u{9EBB}'])
} else {
None
}
} else {
if v == 0x2FA16 {
Some(vec!['\u{4D56}'])
} else {
None
}
}
} else {
if v < 0x2FA18 {
if v == 0x2FA17 {
Some(vec!['\u{9EF9}'])
} else {
None
}
} else {
if v == 0x2FA18 {
Some(vec!['\u{9EFE}'])
} else {
None
}
}
}
} else {
if v < 0x2FA1B {
if v < 0x2FA1A {
if v == 0x2FA19 {
Some(vec!['\u{9F05}'])
} else {
None
}
} else {
if v == 0x2FA1A {
Some(vec!['\u{9F0F}'])
} else {
None
}
}
} else {
if v < 0x2FA1C {
if v == 0x2FA1B {
Some(vec!['\u{9F16}'])
} else {
None
}
} else {
if v < 0x2FA1D {
if v == 0x2FA1C {
Some(vec!['\u{9F3B}'])
} else {
None
}
} else {
if v == 0x2FA1D {
Some(vec!['\u{2A600}'])
} else {
None
}
}
}
}
}
}
}
}
}
}
}
}
}
}

/// The primary composite of `a` followed by `b`, if any (Hangul syllables
/// excepted).
pub closed spec fn primary_composite(a: u32, b: u32) -> Option<char> {
if a < 0x1B0D {
if a < 0x1A1 {
if a < 0x75 {
if a < 0x56 {
if a < 0x49 {
if a < 0x43 {
if a < 0x3E {
if a < 0x3D {
if a == 0x3C {
if b == 0x338 {
Some('\u{226E}')
} else {
None
}
} else {
None
}
} else {
if a == 0x3D {
if b == 0x338 {
Some('\u{2260}')
} else {
None
}
} else {
None
}
}
} else {
if a < 0x41 {
if a == 0x3E {
if b == 0x338 {
Some('\u{226F}')
} else {
None
}
} else {
None
}
} else {
if a < 0x42 {
if a == 0x41 {
if b < 0x309 {
if b < 0x304 {
if b < 0x302 {
if b < 0x301 {
if b == 0x300 {
Some('\u{C0}')
} else {
None
}
} else {
if b == 0x301 {
Some('\u{C1}')
} else {
None
}
}
} else {
if b < 0x303 {
if b == 0x302 {
Some('\u{C2}')
} else {
None
}
} else {
if b == 0x303 {
Some('\u{C3}')
} else {
None
}
}
}
} else {
if b < 0x307 {
if b < 0x306 {
if b == 0x304 {
Some('\u{100}')
} else {
None
}
} else {
if b == 0x306 {
Some('\u{102}')
} else {
None
}
}
} else {
if b < 0x308 {
if b == 0x307 {
Some('\u{226}')
} else {
None
}
} else {
if b == 0x308 {
Some('\u{C4}')
} else {
None
}
}
}
}
} else {
if b < 0x311 {
if b < 0x30C {
if b < 0x30A {
if b == 0x309 {
Some('\u{1EA2}')
} else {
None
}
} else {
if b == 0x30A {
Some('\u{C5}')
} else {
None
}
}
} else {
if b < 0x30F {
if b == 0x30C {
Some('\u{1CD}')
} else {
None
}
} else {
if b == 0x30F {
Some('\u{200}')
} else {
None
}
}
}
} else {
if b < 0x325 {
if b < 0x323 {
if b == 0x311 {
Some('\u{202}')
} else {
None
}
} else {
if b == 0x323 {
Some('\u{1EA0}')
} else {
None
}
}
} else {
if b < 0x328 {
if b == 0x325 {
Some('\u{1E00}')
} else {
None
}
} else {
if b == 0x328 {
Some('\u{104}')
} else {
None
}
}
}
}
}
} else {
None
}
} else {
if a == 0x42 {
if b < 0x323 {
if b == 0x307 {
Some('\u{1E02}')
} else {
None
}
} else {
if b < 0x331 {
if b == 0x323 {
Some('\u{1E04}')
} else {
None
}
} else {
if b == 0x331 {
Some('\u{1E06}')
} else {
None
}
}
}
} else {
None
}
}
}
}
} else {
if a < 0x46 {
if a < 0x44 {
if a == 0x43 {
if b < 0x307 {
if b < 0x302 {
if b == 0x301 {
Some('\u{106}')
} else {
None
}
} else {
if b == 0x302 {
Some('\u{108}')
} else {
None
}
}
} else {
if b < 0x30C {
if b == 0x307 {
Some('\u{10A}')
} else {
None
}
} else {
if b < 0x327 {
if b == 0x30C {
Some('\u{10C}')
} else {
None
}
} else {
if b == 0x327 {
Some('\u{C7}')
} else {
None
}
}
}
}
} else {
None
}
} else {
if a < 0x45 {
if a == 0x44 {
if b < 0x327 {
if b < 0x30C {
if b == 0x307 {
Some('\u{1E0A}')
} else {
None
}
} else {
if b < 0x323 {
if b == 0x30C {
Some('\u{10E}')
} else {
None
}
} else {
if b == 0x323 {
Some('\u{1E0C}')
} else {
None
}
}
}
} else {
if b < 0x32D {
if b == 0x327 {
Some('\u{1E10}')
} else {
None
}
} else {
if b < 0x331 {
if b == 0x32D {
Some('\u{1E12}')
} else {
None
}
} else {
if b == 0x331 {
Some('\u{1E0E}')
} else {
None
}
}
}
}
} else {
None
}
} else {
if a == 0x45 {
if b < 0x309 {
if b < 0x304 {
if b < 0x302 {
if b < 0x301 {
if b == 0x300 {
Some('\u{C8}')
} else {
None
}
} else {
if b == 0x301 {
Some('\u{C9}')
} else {
None
}
}
} else {
if b < 0x303 {
if b == 0x302 {
Some('\u{CA}')
} else {
None
}
} else {
if b == 0x303 {
Some('\u{1EBC}')
} else {
None
}
}
}
} else {
if b < 0x307 {
if b < 0x306 {
if b == 0x304 {
Some('\u{112}')
} else {
None
}
} else {
if b == 0x306 {
Some('\u{114}')
} else {
None
}
}
} else {
if b < 0x308 {
if b == 0x307 {
Some('\u{116}')
} else {
None
}
} else {
if b == 0x308 {
Some('\u{CB}')
} else {
None
}
}
}
}
} else {
if b < 0x323 {
if b < 0x30F {
if b < 0x30C {
if b == 0x309 {
Some('\u{1EBA}')
} else {
None
}
} else {
if b == 0x30C {
Some('\u{11A}')
} else {
None
}
}
} else {
if b < 0x311 {
if b == 0x30F {
Some('\u{204}')
} else {
None
}
} else {
if b == 0x311 {
Some('\u{206}')
} else {
None
}
}
}
} else {
if b < 0x328 {
if b < 0x327 {
if b == 0x323 {
Some('\u{1EB8}')
} else {
None
}
} else {
if b == 0x327 {
Some('\u{228}')
} else {
None
}
}
} else {
if b < 0x32D {
if b == 0x328 {
Some('\u{118}')
} else {
None
}
} else {
if b < 0x330 {
if b == 0x32D {
Some('\u{1E18}')
} else {
None
}
} else {
if b == 0x330 {
Some('\u{1E1A}')
} else {
None
}
}
}
}
}
}
} else {
None
}
}
}
} else {
if a < 0x47 {
if a == 0x46 {
if b == 0x307 {
Some('\u{1E1E}')
} else {
None
}
} else {
None
}
} else {
if a < 0x48 {
if a == 0x47 {
if b < 0x306 {
if b < 0x302 {
if b == 0x301 {
Some('\u{1F4}')
} else {
None
}
} else {
if b < 0x304 {
if b == 0x302 {
Some('\u{11C}')
} else {
None
}
} else {
if b == 0x304 {
Some('\u{1E20}')
} else {
None
}
}
}
} else {
if b < 0x30C {
if b < 0x307 {
if b == 0x306 {
Some('\u{11E}')
} else {
None
}
} else {
if b == 0x307 {
Some('\u{120}')
} else {
None
}
}
} else {
if b < 0x327 {
if b == 0x30C {
Some('\u{1E6}')
} else {
None
}
} else {
if b == 0x327 {
Some('\u{122}')
} else {
None
}
}
}
}
} else {
None
}
} else {
if a == 0x48 {
if b < 0x30C {
if b < 0x307 {
if b == 0x302 {
Some('\u{124}')
} else {
None
}
} else {
if b < 0x308 {
if b == 0x307 {
Some('\u{1E22}')
} else {
None
}
} else {
if b == 0x308 {
Some('\u{1E26}')
} else {
None
}
}
}
} else {
if b < 0x327 {
if b < 0x323 {
if b == 0x30C {
Some('\u{21E}')
} else {
None
}
} else {
if b == 0x323 {
Some('\u{1E24}')
} else {
None
}
}
} else {
if b < 0x32E {
if b == 0x327 {
Some('\u{1E28}')
} else {
None
}
} else {
if b == 0x32E {
Some('\u{1E2A}')
} else {
None
}
}
}
}
} else {
None
}
}
}
}
}
} else {
if a < 0x4F {
if a < 0x4C {
if a < 0x4A {
if a == 0x49 {
if b < 0x308 {
if b < 0x303 {
if b < 0x301 {
if b == 0x300 {
Some('\u{CC}')
} else {
None
}
} else {
if b < 0x302 {
if b == 0x301 {
Some('\u{CD}')
} else {
None
}
} else {
if b == 0x302 {
Some('\u{CE}')
} else {
None
}
}
}
} else {
if b < 0x306 {
if b < 0x304 {
if b == 0x303 {
Some('\u{128}')
} else {
None
}
} else {
if b == 0x304 {
Some('\u{12A}')
} else {
None
}
}
} else {
if b < 0x307 {
if b == 0x306 {
Some('\u{12C}')
} else {
None
}
} else {
if b == 0x307 {
Some('\u{130}')
} else {
None
}
}
}
}
} else {
if b < 0x311 {
if b < 0x30C {
if b < 0x309 {
if b == 0x308 {
Some('\u{CF}')
} else {
None
}
} else {
if b == 0x309 {
Some('\u{1EC8}')
} else {
None
}
}
} else {
if b < 0x30F {
if b == 0x30C {
Some('\u{1CF}')
} else {
None
}
} else {
if b == 0x30F {
Some('\u{208}')
} else {
None
}
}
}
} else {
if b < 0x328 {
if b < 0x323 {
if b == 0x311 {
Some('\u{20A}')
} else {
None
}
} else {
if b == 0x323 {
Some('\u{1ECA}')
} else {
None
}
}
} else {
if b < 0x330 {
if b == 0x328 {
Some('\u{12E}')
} else {
None
}
} else {
if b == 0x330 {
Some('\u{1E2C}')
} else {
None
}
}
}
}
}
} else {
None
}
} else {
if a < 0x4B {
if a == 0x4A {
if b == 0x302 {
Some('\u{134}')
} else {
None
}
} else {
None
}
} else {
if a == 0x4B {
if b < 0x323 {
if b < 0x30C {
if b == 0x301 {
Some('\u{1E30}')
} else {
None
}
} else {
if b == 0x30C {
Some('\u{1E8}')
} else {
None
}
}
} else {
if b < 0x327 {
if b == 0x323 {
Some('\u{1E32}')
} else {
None
}
} else {
if b < 0x331 {
if b == 0x327 {
Some('\u{136}')
} else {
None
}
} else {
if b == 0x331 {
Some('\u{1E34}')
} else {
None
}
}
}
}
} else {
None
}
}
}
} else {
if a < 0x4D {
if a == 0x4C {
if b < 0x327 {
if b < 0x30C {
if b == 0x301 {
Some('\u{139}')
} else {
None
}
} else {
if b < 0x323 {
if b == 0x30C {
Some('\u{13D}')
} else {
None
}
} else {
if b == 0x323 {
Some('\u{1E36}')
} else {
None
}
}
}
} else {
if b < 0x32D {
if b == 0x327 {
Some('\u{13B}')
} else {
None
}
} else {
if b < 0x331 {
if b == 0x32D {
Some('\u{1E3C}')
} else {
None
}
} else {
if b == 0x331 {
Some('\u{1E3A}')
} else {
None
}
}
}
}
} else {
None
}
} else {
if a < 0x4E {
if a == 0x4D {
if b < 0x307 {
if b == 0x301 {
Some('\u{1E3E}')
} else {
None
}
} else {
if b < 0x323 {
if b == 0x307 {
Some('\u{1E40}')
} else {
None
}
} else {
if b == 0x323 {
Some('\u{1E42}')
} else {
None
}
}
}
} else {
None
}
} else {
if a == 0x4E {
if b < 0x30C {
if b < 0x303 {
if b < 0x301 {
if b == 0x300 {
Some('\u{1F8}')
} else {
None
}
} else {
if b == 0x301 {
Some('\u{143}')
} else {
None
}
}
} else {
if b < 0x307 {
if b == 0x303 {
Some('\u{D1}')
} else {
None
}
} else {
if b == 0x307 {
Some('\u{1E44}')
} else {
None
}
}
}
} else {
if b < 0x327 {
if b < 0x323 {
if b == 0x30C {
Some('\u{147}')
} else {
None
}
} else {
if b == 0x323 {
Some('\u{1E46}')
} else {
None
}
}
} else {
if b < 0x32D {
if b == 0x327 {
Some('\u{145}')
} else {
None
}
} else {
if b < 0x331 {
if b == 0x32D {
Some('\u{1E4A}')
} else {
None
}
} else {
if b == 0x331 {
Some('\u{1E48}')
} else {
None
}
}
}
}
}
} else {
None
}
}
}
}
} else {
if a < 0x53 {
if a < 0x50 {
if a == 0x4F {
if b < 0x309 {
if b < 0x304 {
if b < 0x302 {
if b < 0x301 {
if b == 0x300 {
Some('\u{D2}')
} else {
None
}
} else {
if b == 0x301 {
Some('\u{D3}')
} else {
None
}
}
} else {
if b < 0x303 {
if b == 0x302 {
Some('\u{D4}')
} else {
None
}
} else {
if b == 0x303 {
Some('\u{D5}')
} else {
None
}
}
}
} else {
if b < 0x307 {
if b < 0x306 {
if b == 0x304 {
Some('\u{14C}')
} else {
None
}
} else {
if b == 0x306 {
Some('\u{14E}')
} else {
None
}
}
} else {
if b < 0x308 {
if b == 0x307 {
Some('\u{22E}')
} else {
None
}
} else {
if b == 0x308 {
Some('\u{D6}')
} else {
None
}
}
}
}
} else {
if b < 0x311 {
if b < 0x30C {
if b < 0x30B {
if b == 0x309 {
Some('\u{1ECE}')
} else {
None
}
} else {
if b == 0x30B {
Some('\u{150}')
} else {
None
}
}
} else {
if b < 0x30F {
if b == 0x30C {
Some('\u{1D1}')
} else {
None
}
} else {
if b == 0x30F {
Some('\u{20C}')
} else {
None
}
}
}
} else {
if b < 0x323 {
if b < 0x31B {
if b == 0x311 {
Some('\u{20E}')
} else {
None
}
} else {
if b == 0x31B {
Some('\u{1A0}')
} else {
None
}
}
} else {
if b < 0x328 {
if b == 0x323 {
Some('\u{1ECC}')
} else {
None
}
} else {
if b == 0x328 {
Some('\u{1EA}')
} else {
None
}
}
}
}
}
} else {
None
}
} else {
if a < 0x52 {
if a == 0x50 {
if b < 0x307 {
if b == 0x301 {
Some('\u{1E54}')
} else {
None
}
} else {
if b == 0x307 {
Some('\u{1E56}')
} else {
None
}
}
} else {
None
}
} else {
if a == 0x52 {
if b < 0x311 {
if b < 0x30C {
if b < 0x307 {
if b == 0x301 {
Some('\u{154}')
} else {
None
}
} else {
if b == 0x307 {
Some('\u{1E58}')
} else {
None
}
}
} else {
if b < 0x30F {
if b == 0x30C {
Some('\u{158}')
} else {
None
}
} else {
if b == 0x30F {
Some('\u{210}')
} else {
None
}
}
}
} else {
if b < 0x327 {
if b < 0x323 {
if b == 0x311 {
Some('\u{212}')
} else {
None
}
} else {
if b == 0x323 {
Some('\u{1E5A}')
} else {
None
}
}
} else {
if b < 0x331 {
if b == 0x327 {
Some('\u{156}')
} else {
None
}
} else {
if b == 0x331 {
Some('\u{1E5E}')
} else {
None
}
}
}
}
} else {
None
}
}
}
} else {
if a < 0x54 {
if a == 0x53 {
if b < 0x30C {
if b < 0x302 {
if b == 0x301 {
Some('\u{15A}')
} else {
None
}
} else {
if b < 0x307 {
if b == 0x302 {
Some('\u{15C}')
} else {
None
}
} else {
if b == 0x307 {
Some('\u{1E60}')
} else {
None
}
}
}
} else {
if b < 0x326 {
if b < 0x323 {
if b == 0x30C {
Some('\u{160}')
} else {
None
}
} else {
if b == 0x323 {
Some('\u{1E62}')
} else {
None
}
}
} else {
if b < 0x327 {
if b == 0x326 {
Some('\u{218}')
} else {
None
}
} else {
if b == 0x327 {
Some('\u{15E}')
} else {
None
}
}
}
}
} else {
None
}
} else {
if a < 0x55 {
if a == 0x54 {
if b < 0x326 {
if b < 0x30C {
if b == 0x307 {
Some('\u{1E6A}')
} else {
None
}
} else {
if b < 0x323 {
if b == 0x30C {
Some('\u{164}')
} else {
None
}
} else {
if b == 0x323 {
Some('\u{1E6C}')
} else {
None
}
}
}
} else {
if b < 0x32D {
if b < 0x327 {
if b == 0x326 {
Some('\u{21A}')
} else {
None
}
} else {
if b == 0x327 {
Some('\u{162}')
} else {
None
}
}
} else {
if b < 0x331 {
if b == 0x32D {
Some('\u{1E70}')
} else {
None
}
} else {
if b == 0x331 {
Some('\u{1E6E}')
} else {
None
}
}
}
}
} else {
None
}
} else {
if a == 0x55 {
if b < 0x30B {
if b < 0x304 {
if b < 0x302 {
if b < 0x301 {
if b == 0x300 {
Some('\u{D9}')
} else {
None
}
} else {
if b == 0x301 {
Some('\u{DA}')
} else {
None
}
}
} else {
if b < 0x303 {
if b == 0x302 {
Some('\u{DB}')
} else {
None
}
} else {
if b == 0x303 {
Some('\u{168}')
} else {
None
}
}
}
} else {
if b < 0x308 {
if b < 0x306 {
if b == 0x304 {
Some('\u{16A}')
} else {
None
}
} else {
if b == 0x306 {
Some('\u{16C}')
} else {
None
}
}
} else {
if b < 0x309 {
if b == 0x308 {
Some('\u{DC}')
} else {
None
}
} else {
if b < 0x30A {
if b == 0x309 {
Some('\u{1EE6}')
} else {
None
}
} else {
if b == 0x30A {
Some('\u{16E}')
} else {
None
}
}
}
}
}
} else {
if b < 0x323 {
if b < 0x30F {
if b < 0x30C {
if b == 0x30B {
Some('\u{170}')
} else {
None
}
} else {
if b == 0x30C {
Some('\u{1D3}')
} else {
None
}
}
} else {
if b < 0x311 {
if b == 0x30F {
Some('\u{214}')
} else {
None
}
} else {
if b < 0x31B {
if b == 0x311 {
Some('\u{216}')
} else {
None
}
} else {
if b == 0x31B {
Some('\u{1AF}')
} else {
None
}
}
}
}
} else {
if b < 0x328 {
if b < 0x324 {
if b == 0x323 {
Some('\u{1EE4}')
} else {
None
}
} else {
if b == 0x324 {
Some('\u{1E72}')
} else {
None
}
}
} else {
if b < 0x32D {
if b == 0x328 {
Some('\u{172}')
} else {
None
}
} else {
if b < 0x330 {
if b == 0x32D {
Some('\u{1E76}')
} else {
None
}
} else {
if b == 0x330 {
Some('\u{1E74}')
} else {
None
}
}
}
}
}
}
} else {
None
}
}
}
}
}
}
} else {
if a < 0x68 {
if a < 0x62 {
if a < 0x59 {
if a < 0x57 {
if a == 0x56 {
if b < 0x323 {
if b == 0x303 {
Some('\u{1E7C}')
} else {
None
}
} else {
if b == 0x323 {
Some('\u{1E7E}')
} else {
None
}
}
} else {
None
}
} else {
if a < 0x58 {
if a == 0x57 {
if b < 0x307 {
if b < 0x301 {
if b == 0x300 {
Some('\u{1E80}')
} else {
None
}
} else {
if b < 0x302 {
if b == 0x301 {
Some('\u{1E82}')
} else {
None
}
} else {
if b == 0x302 {
Some('\u{174}')
} else {
None
}
}
}
} else {
if b < 0x308 {
if b == 0x307 {
Some('\u{1E86}')
} else {
None
}
} else {
if b < 0x323 {
if b == 0x308 {
Some('\u{1E84}')
} else {
None
}
} else {
if b == 0x323 {
Some('\u{1E88}')
} else {
None
}
}
}
}
} else {
None
}
} else {
if a == 0x58 {
if b < 0x308 {
if b == 0x307 {
Some('\u{1E8A}')
} else {
None
}
} else {
if b == 0x308 {
Some('\u{1E8C}')
} else {
None
}
}
} else {
None
}
}
}
} else {
if a < 0x5A {
if a == 0x59 {
if b < 0x304 {
if b < 0x302 {
if b < 0x301 {
if b == 0x300 {
Some('\u{1EF2}')
} else {
None
}
} else {
if b == 0x301 {
Some('\u{DD}')
} else {
None
}
}
} else {
if b < 0x303 {
if b == 0x302 {
Some('\u{176}')
} else {
None
}
} else {
if b == 0x303 {
Some('\u{1EF8}')
} else {
None
}
}
}
} else {
if b < 0x308 {
if b < 0x307 {
if b == 0x304 {
Some('\u{232}')
} else {
None
}
} else {
if b == 0x307 {
Some('\u{1E8E}')
} else {
None
}
}
} else {
if b < 0x309 {
if b == 0x308 {
Some('\u{178}')
} else {
None
}
} else {
if b < 0x323 {
if b == 0x309 {
Some('\u{1EF6}')
} else {
None
}
} else {
if b == 0x323 {
Some('\u{1EF4}')
} else {
None
}
}
}
}
}
} else {
None
}
} else {
if a < 0x61 {
if a == 0x5A {
if b < 0x30C {
if b < 0x302 {
if b == 0x301 {
Some('\u{179}')
} else {
None
}
} else {
if b < 0x307 {
if b == 0x302 {
Some('\u{1E90}')
} else {
None
}
} else {
if b == 0x307 {
Some('\u{17B}')
} else {
None
}
}
}
} else {
if b < 0x323 {
if b == 0x30C {
Some('\u{17D}')
} else {
None
}
} else {
if b < 0x331 {
if b == 0x323 {
Some('\u{1E92}')
} else {
None
}
} else {
if b == 0x331 {
Some('\u{1E94}')
} else {
None
}
}
}
}
} else {
None
}
} else {
if a == 0x61 {
if b < 0x309 {
if b < 0x304 {
if b < 0x302 {
if b < 0x301 {
if b == 0x300 {
Some('\u{E0}')
} else {
None
}
} else {
if b == 0x301 {
Some('\u{E1}')
} else {
None
}
}
} else {
if b < 0x303 {
if b == 0x302 {
Some('\u{E2}')
} else {
None
}
} else {
if b == 0x303 {
Some('\u{E3}')
} else {
None
}
}
}
} else {
if b < 0x307 {
if b < 0x306 {
if b == 0x304 {
Some('\u{101}')
} else {
None
}
} else {
if b == 0x306 {
Some('\u{103}')
} else {
None
}
}
} else {
if b < 0x308 {
if b == 0x307 {
Some('\u{227}')
} else {
None
}
} else {
if b == 0x308 {
Some('\u{E4}')
} else {
None
}
}
}
}
} else {
if b < 0x311 {
if b < 0x30C {
if b < 0x30A {
if b == 0x309 {
Some('\u{1EA3}')
} else {
None
}
} else {
if b == 0x30A {
Some('\u{E5}')
} else {
None
}
}
} else {
if b < 0x30F {
if b == 0x30C {
Some('\u{1CE}')
} else {
None
}
} else {
if b == 0x30F {
Some('\u{201}')
} else {
None
}
}
}
} else {
if b < 0x325 {
if b < 0x323 {
if b == 0x311 {
Some('\u{203}')
} else {
None
}
} else {
if b == 0x323 {
Some('\u{1EA1}')
} else {
None
}
}
} else {
if b < 0x328 {
if b == 0x325 {
Some('\u{1E01}')
} else {
None
}
} else {
if b == 0x328 {
Some('\u{105}')
} else {
None
}
}
}
}
}
} else {
None
}
}
}
}
} else {
if a < 0x65 {
if a < 0x63 {
if a == 0x62 {
if b < 0x323 {
if b == 0x307 {
Some('\u{1E03}')
} else {
None
}
} else {
if b < 0x331 {
if b == 0x323 {
Some('\u{1E05}')
} else {
None
}
} else {
if b == 0x331 {
Some('\u{1E07}')
} else {
None
}
}
}
} else {
None
}
} else {
if a < 0x64 {
if a == 0x63 {
if b < 0x307 {
if b < 0x302 {
if b == 0x301 {
Some('\u{107}')
} else {
None
}
} else {
if b == 0x302 {
Some('\u{109}')
} else {
None
}
}
} else {
if b < 0x30C {
if b == 0x307 {
Some('\u{10B}')
} else {
None
}
} else {
if b < 0x327 {
if b == 0x30C {
Some('\u{10D}')
} else {
None
}
} else {
if b == 0x327 {
Some('\u{E7}')
} else {
None
}
}
}
}
} else {
None
}
} else {
if a == 0x64 {
if b < 0x327 {
if b < 0x30C {
if b == 0x307 {
Some('\u{1E0B}')
} else {
None
}
} else {
if b < 0x323 {
if b == 0x30C {
Some('\u{10F}')
} else {
None
}
} else {
if b == 0x323 {
Some('\u{1E0D}')
} else {
None
}
}
}
} else {
if b < 0x32D {
if b == 0x327 {
Some('\u{1E11}')
} else {
None
}
} else {
if b < 0x331 {
if b == 0x32D {
Some('\u{1E13}')
} else {
None
}
} else {
if b == 0x331 {
Some('\u{1E0F}')
} else {
None
}
}
}
}
} else {
None
}
}
}
} else {
if a < 0x66 {
if a == 0x65 {
if b < 0x309 {
if b < 0x304 {
if b < 0x302 {
if b < 0x301 {
if b == 0x300 {
Some('\u{E8}')
} else {
None
}
} else {
if b == 0x301 {
Some('\u{E9}')
} else {
None
}
}
} else {
if b < 0x303 {
if b == 0x302 {
Some('\u{EA}')
} else {
None
}
} else {
if b == 0x303 {
Some('\u{1EBD}')
} else {
None
}
}
}
} else {
if b < 0x307 {
if b < 0x306 {
if b == 0x304 {
Some('\u{113}')
} else {
None
}
} else {
if b == 0x306 {
Some('\u{115}')
} else {
None
}
}
} else {
if b < 0x308 {
if b == 0x307 {
Some('\u{117}')
} else {
None
}
} else {
if b == 0x308 {
Some('\u{EB}')
} else {
None
}
}
}
}
} else {
if b < 0x323 {
if b < 0x30F {
if b < 0x30C {
if b == 0x309 {
Some('\u{1EBB}')
} else {
None
}
} else {
if b == 0x30C {
Some('\u{11B}')
} else {
None
}
}
} else {
if b < 0x311 {
if b == 0x30F {
Some('\u{205}')
} else {
None
}
} else {
if b == 0x311 {
Some('\u{207}')
} else {
None
}
}
}
} else {
if b < 0x328 {
if b < 0x327 {
if b == 0x323 {
Some('\u{1EB9}')
} else {
None
}
} else {
if b == 0x327 {
Some('\u{229}')
} else {
None
}
}
} else {
if b < 0x32D {
if b == 0x328 {
Some('\u{119}')
} else {
None
}
} else {
if b < 0x330 {
if b == 0x32D {
Some('\u{1E19}')
} else {
None
}
} else {
if b == 0x330 {
Some('\u{1E1B}')
} else {
None
}
}
}
}
}
}
} else {
None
}
} else {
if a < 0x67 {
if a == 0x66 {
if b == 0x307 {
Some('\u{1E1F}')
} else {
None
}
} else {
None
}
} else {
if a == 0x67 {
if b < 0x306 {
if b < 0x302 {
if b == 0x301 {
Some('\u{1F5}')
} else {
None
}
} else {
if b < 0x304 {
if b == 0x302 {
Some('\u{11D}')
} else {
None
}
} else {
if b == 0x304 {
Some('\u{1E21}')
} else {
None
}
}
}
} else {
if b < 0x30C {
if b < 0x307 {
if b == 0x306 {
Some('\u{11F}')
} else {
None
}
} else {
if b == 0x307 {
Some('\u{121}')
} else {
None
}
}
} else {
if b < 0x327 {
if b == 0x30C {
Some('\u{1E7}')
} else {
None
}
} else {
if b == 0x327 {
Some('\u{123}')
} else {
None
}
}
}
}
} else {
None
}
}
}
}
}
} else {
if a < 0x6E {
if a < 0x6B {
if a < 0x69 {
if a == 0x68 {
if b < 0x323 {
if b < 0x308 {
if b < 0x307 {
if b == 0x302 {
Some('\u{125}')
} else {
None
}
} else {
if b == 0x307 {
Some('\u{1E23}')
} else {
None
}
}
} else {
if b < 0x30C {
if b == 0x308 {
Some('\u{1E27}')
} else {
None
}
} else {
if b == 0x30C {
Some('\u{21F}')
} else {
None
}
}
}
} else {
if b < 0x32E {
if b < 0x327 {
if b == 0x323 {
Some('\u{1E25}')
} else {
None
}
} else {
if b == 0x327 {
Some('\u{1E29}')
} else {
None
}
}
} else {
if b < 0x331 {
if b == 0x32E {
Some('\u{1E2B}')
} else {
None
}
} else {
if b == 0x331 {
Some('\u{1E96}')
} else {
None
}
}
}
}
} else {
None
}
} else {
if a < 0x6A {
if a == 0x69 {
if b < 0x309 {
if b < 0x303 {
if b < 0x301 {
if b == 0x300 {
Some('\u{EC}')
} else {
None
}
} else {
if b < 0x302 {
if b == 0x301 {
Some('\u{ED}')
} else {
None
}
} else {
if b == 0x302 {
Some('\u{EE}')
} else {
None
}
}
}
} else {
if b < 0x306 {
if b < 0x304 {
if b == 0x303 {
Some('\u{129}')
} else {
None
}
} else {
if b == 0x304 {
Some('\u{12B}')
} else {
None
}
}
} else {
if b < 0x308 {
if b == 0x306 {
Some('\u{12D}')
} else {
None
}
} else {
if b == 0x308 {
Some('\u{EF}')
} else {
None
}
}
}
}
} else {
if b < 0x311 {
if b < 0x30C {
if b == 0x309 {
Some('\u{1EC9}')
} else {
None
}
} else {
if b < 0x30F {
if b == 0x30C {
Some('\u{1D0}')
} else {
None
}
} else {
if b == 0x30F {
Some('\u{209}')
} else {
None
}
}
}
} else {
if b < 0x328 {
if b < 0x323 {
if b == 0x311 {
Some('\u{20B}')
} else {
None
}
} else {
if b == 0x323 {
Some('\u{1ECB}')
} else {
None
}
}
} else {
if b < 0x330 {
if b == 0x328 {
Some('\u{12F}')
} else {
None
}
} else {
if b == 0x330 {
Some('\u{1E2D}')
} else {
None
}
}
}
}
}
} else {
None
}
} else {
if a == 0x6A {
if b < 0x30C {
if b == 0x302 {
Some('\u{135}')
} else {
None
}
} else {
if b == 0x30C {
Some('\u{1F0}')
} else {
None
}
}
} else {
None
}
}
}
} else {
if a < 0x6C {
if a == 0x6B {
if b < 0x323 {
if b < 0x30C {
if b == 0x301 {
Some('\u{1E31}')
} else {
None
}
} else {
if b == 0x30C {
Some('\u{1E9}')
} else {
None
}
}
} else {
if b < 0x327 {
if b == 0x323 {
Some('\u{1E33}')
} else {
None
}
} else {
if b < 0x331 {
if b == 0x327 {
Some('\u{137}')
} else {
None
}
} else {
if b == 0x331 {
Some('\u{1E35}')
} else {
None
}
}
}
}
} else {
None
}
} else {
if a < 0x6D {
if a == 0x6C {
if b < 0x327 {
if b < 0x30C {
if b == 0x301 {
Some('\u{13A}')
} else {
None
}
} else {
if b < 0x323 {
if b == 0x30C {
Some('\u{13E}')
} else {
None
}
} else {
if b == 0x323 {
Some('\u{1E37}')
} else {
None
}
}
}
} else {
if b < 0x32D {
if b == 0x327 {
Some('\u{13C}')
} else {
None
}
} else {
if b < 0x331 {
if b == 0x32D {
Some('\u{1E3D}')
} else {
None
}
} else {
if b == 0x331 {
Some('\u{1E3B}')
} else {
None
}
}
}
}
} else {
None
}
} else {
if a == 0x6D {
if b < 0x307 {
if b == 0x301 {
Some('\u{1E3F}')
} else {
None
}
} else {
if b < 0x323 {
if b == 0x307 {
Some('\u{1E41}')
} else {
None
}
} else {
if b == 0x323 {
Some('\u{1E43}')
} else {
None
}
}
}
} else {
None
}
}
}
}
} else {
if a < 0x72 {
if a < 0x6F {
if a == 0x6E {
if b < 0x30C {
if b < 0x303 {
if b < 0x301 {
if b == 0x300 {
Some('\u{1F9}')
} else {
None
}
} else {
if b == 0x301 {
Some('\u{144}')
} else {
None
}
}
} else {
if b < 0x307 {
if b == 0x303 {
Some('\u{F1}')
} else {
None
}
} else {
if b == 0x307 {
Some('\u{1E45}')
} else {
None
}
}
}
} else {
if b < 0x327 {
if b < 0x323 {
if b == 0x30C {
Some('\u{148}')
} else {
None
}
} else {
if b == 0x323 {
Some('\u{1E47}')
} else {
None
}
}
} else {
if b < 0x32D {
if b == 0x327 {
Some('\u{146}')
} else {
None
}
} else {
if b < 0x331 {
if b == 0x32D {
Some('\u{1E4B}')
} else {
None
}
} else {
if b == 0x331 {
Some('\u{1E49}')
} else {
None
}
}
}
}
}
} else {
None
}
} else {
if a < 0x70 {
if a == 0x6F {
if b < 0x309 {
if b < 0x304 {
if b < 0x302 {
if b < 0x301 {
if b == 0x300 {
Some('\u{F2}')
} else {
None
}
} else {
if b == 0x301 {
Some('\u{F3}')
} else {
None
}
}
} else {
if b < 0x303 {
if b == 0x302 {
Some('\u{F4}')
} else {
None
}
} else {
if b == 0x303 {
Some('\u{F5}')
} else {
None
}
}
}
} else {
if b < 0x307 {
if b < 0x306 {
if b == 0x304 {
Some('\u{14D}')
} else {
None
}
} else {
if b == 0x306 {
Some('\u{14F}')
} else {
None
}
}
} else {
if b < 0x308 {
if b == 0x307 {
Some('\u{22F}')
} else {
None
}
} else {
if b == 0x308 {
Some('\u{F6}')
} else {
None
}
}
}
}
} else {
if b < 0x311 {
if b < 0x30C {
if b < 0x30B {
if b == 0x309 {
Some('\u{1ECF}')
} else {
None
}
} else {
if b == 0x30B {
Some('\u{151}')
} else {
None
}
}
} else {
if b < 0x30F {
if b == 0x30C {
Some('\u{1D2}')
} else {
None
}
} else {
if b == 0x30F {
Some('\u{20D}')
} else {
None
}
}
}
} else {
if b < 0x323 {
if b < 0x31B {
if b == 0x311 {
Some('\u{20F}')
} else {
None
}
} else {
if b == 0x31B {
Some('\u{1A1}')
} else {
None
}
}
} else {
if b < 0x328 {
if b == 0x323 {
Some('\u{1ECD}')
} else {
None
}
} else {
if b == 0x328 {
Some('\u{1EB}')
} else {
None
}
}
}
}
}
} else {
None
}
} else {
if a == 0x70 {
if b < 0x307 {
if b == 0x301 {
Some('\u{1E55}')
} else {
None
}
} else {
if b == 0x307 {
Some('\u{1E57}')
} else {
None
}
}
} else {
None
}
}
}
} else {
if a < 0x73 {
if a == 0x72 {
if b < 0x311 {
if b < 0x30C {
if b < 0x307 {
if b == 0x301 {
Some('\u{155}')
} else {
None
}
} else {
if b == 0x307 {
Some('\u{1E59}')
} else {
None
}
}
} else {
if b < 0x30F {
if b == 0x30C {
Some('\u{159}')
} else {
None
}
} else {
if b == 0x30F {
Some('\u{211}')
} else {
None
}
}
}
} else {
if b < 0x327 {
if b < 0x323 {
if b == 0x311 {
Some('\u{213}')
} else {
None
}
} else {
if b == 0x323 {
Some('\u{1E5B}')
} else {
None
}
}
} else {
if b < 0x331 {
if b == 0x327 {
Some('\u{157}')
} else {
None
}
} else {
if b == 0x331 {
Some('\u{1E5F}')
} else {
None
}
}
}
}
} else {
None
}
} else {
if a < 0x74 {
if a == 0x73 {
if b < 0x30C {
if b < 0x302 {
if b == 0x301 {
Some('\u{15B}')
} else {
None
}
} else {
if b < 0x307 {
if b == 0x302 {
Some('\u{15D}')
} else {
None
}
} else {
if b == 0x307 {
Some('\u{1E61}')
} else {
None
}
}
}
} else {
if b < 0x326 {
if b < 0x323 {
if b == 0x30C {
Some('\u{161}')
} else {
None
}
} else {
if b == 0x323 {
Some('\u{1E63}')
} else {
None
}
}
} else {
if b < 0x327 {
if b == 0x326 {
Some('\u{219}')
} else {
None
}
} else {
if b == 0x327 {
Some('\u{15F}')
} else {
None
}
}
}
}
} else {
None
}
} else {
if a == 0x74 {
if b < 0x326 {
if b < 0x30C {
if b < 0x308 {
if b == 0x307 {
Some('\u{1E6B}')
} else {
None
}
} else {
if b == 0x308 {
Some('\u{1E97}')
} else {
None
}
}
} else {
if b < 0x323 {
if b == 0x30C {
Some('\u{165}')
} else {
None
}
} else {
if b == 0x323 {
Some('\u{1E6D}')
} else {
None
}
}
}
} else {
if b < 0x32D {
if b < 0x327 {
if b == 0x326 {
Some('\u{21B}')
} else {
None
}
} else {
if b == 0x327 {
Some('\u{163}')
} else {
None
}
}
} else {
if b < 0x331 {
if b == 0x32D {
Some('\u{1E71}')
} else {
None
}
} else {
if b == 0x331 {
Some('\u{1E6F}')
} else {
None
}
}
}
}
} else {
None
}
}
}
}
}
}
}
} else {
if a < 0xE7 {
if a < 0xC7 {
if a < 0x7A {
if a < 0x77 {
if a < 0x76 {
if a == 0x75 {
if b < 0x30B {
if b < 0x304 {
if b < 0x302 {
if b < 0x301 {
if b == 0x300 {
Some('\u{F9}')
} else {
None
}
} else {
if b == 0x301 {
Some('\u{FA}')
} else {
None
}
}
} else {
if b < 0x303 {
if b == 0x302 {
Some('\u{FB}')
} else {
None
}
} else {
if b == 0x303 {
Some('\u{169}')
} else {
None
}
}
}
} else {
if b < 0x308 {
if b < 0x306 {
if b == 0x304 {
Some('\u{16B}')
} else {
None
}
} else {
if b == 0x306 {
Some('\u{16D}')
} else {
None
}
}
} else {
if b < 0x309 {
if b == 0x308 {
Some('\u{FC}')
} else {
None
}
} else {
if b < 0x30A {
if b == 0x309 {
Some('\u{1EE7}')
} else {
None
}
} else {
if b == 0x30A {
Some('\u{16F}')
} else {
None
}
}
}
}
}
} else {
if b < 0x323 {
if b < 0x30F {
if b < 0x30C {
if b == 0x30B {
Some('\u{171}')
} else {
None
}
} else {
if b == 0x30C {
Some('\u{1D4}')
} else {
None
}
}
} else {
if b < 0x311 {
if b == 0x30F {
Some('\u{215}')
} else {
None
}
} else {
if b < 0x31B {
if b == 0x311 {
Some('\u{217}')
} else {
None
}
} else {
if b == 0x31B {
Some('\u{1B0}')
} else {
None
}
}
}
}
} else {
if b < 0x328 {
if b < 0x324 {
if b == 0x323 {
Some('\u{1EE5}')
} else {
None
}
} else {
if b == 0x324 {
Some('\u{1E73}')
} else {
None
}
}
} else {
if b < 0x32D {
if b == 0x328 {
Some('\u{173}')
} else {
None
}
} else {
if b < 0x330 {
if b == 0x32D {
Some('\u{1E77}')
} else {
None
}
} else {
if b == 0x330 {
Some('\u{1E75}')
} else {
None
}
}
}
}
}
}
} else {
None
}
} else {
if a == 0x76 {
if b < 0x323 {
if b == 0x303 {
Some('\u{1E7D}')
} else {
None
}
} else {
if b == 0x323 {
Some('\u{1E7F}')
} else {
None
}
}
} else {
None
}
}
} else {
if a < 0x78 {
if a == 0x77 {
if b < 0x307 {
if b < 0x301 {
if b == 0x300 {
Some('\u{1E81}')
} else {
None
}
} else {
if b < 0x302 {
if b == 0x301 {
Some('\u{1E83}')
} else {
None
}
} else {
if b == 0x302 {
Some('\u{175}')
} else {
None
}
}
}
} else {
if b < 0x30A {
if b < 0x308 {
if b == 0x307 {
Some('\u{1E87}')
} else {
None
}
} else {
if b == 0x308 {
Some('\u{1E85}')
} else {
None
}
}
} else {
if b < 0x323 {
if b == 0x30A {
Some('\u{1E98}')
} else {
None
}
} else {
if b == 0x323 {
Some('\u{1E89}')
} else {
None
}
}
}
}
} else {
None
}
} else {
if a < 0x79 {
if a == 0x78 {
if b < 0x308 {
if b == 0x307 {
Some('\u{1E8B}')
} else {
None
}
} else {
if b == 0x308 {
Some('\u{1E8D}')
} else {
None
}
}
} else {
None
}
} else {
if a == 0x79 {
if b < 0x307 {
if b < 0x302 {
if b < 0x301 {
if b == 0x300 {
Some('\u{1EF3}')
} else {
None
}
} else {
if b == 0x301 {
Some('\u{FD}')
} else {
None
}
}
} else {
if b < 0x303 {
if b == 0x302 {
Some('\u{177}')
} else {
None
}
} else {
if b < 0x304 {
if b == 0x303 {
Some('\u{1EF9}')
} else {
None
}
} else {
if b == 0x304 {
Some('\u{233}')
} else {
None
}
}
}
}
} else {
if b < 0x309 {
if b < 0x308 {
if b == 0x307 {
Some('\u{1E8F}')
} else {
None
}
} else {
if b == 0x308 {
Some('\u{FF}')
} else {
None
}
}
} else {
if b < 0x30A {
if b == 0x309 {
Some('\u{1EF7}')
} else {
None
}
} else {
if b < 0x323 {
if b == 0x30A {
Some('\u{1E99}')
} else {
None
}
} else {
if b == 0x323 {
Some('\u{1EF5}')
} else {
None
}
}
}
}
}
} else {
None
}
}
}
}
} else {
if a < 0xC4 {
if a < 0xA8 {
if a == 0x7A {
if b < 0x30C {
if b < 0x302 {
if b == 0x301 {
Some('\u{17A}')
} else {
None
}
} else {
if b < 0x307 {
if b == 0x302 {
Some('\u{1E91}')
} else {
None
}
} else {
if b == 0x307 {
Some('\u{17C}')
} else {
None
}
}
}
} else {
if b < 0x323 {
if b == 0x30C {
Some('\u{17E}')
} else {
None
}
} else {
if b < 0x331 {
if b == 0x323 {
Some('\u{1E93}')
} else {
None
}
} else {
if b == 0x331 {
Some('\u{1E95}')
} else {
None
}
}
}
}
} else {
None
}
} else {
if a < 0xC2 {
if a == 0xA8 {
if b < 0x301 {
if b == 0x300 {
Some('\u{1FED}')
} else {
None
}
} else {
if b < 0x342 {
if b == 0x301 {
Some('\u{385}')
} else {
None
}
} else {
if b == 0x342 {
Some('\u{1FC1}')
} else {
None
}
}
}
} else {
None
}
} else {
if a == 0xC2 {
if b < 0x303 {
if b < 0x301 {
if b == 0x300 {
Some('\u{1EA6}')
} else {
None
}
} else {
if b == 0x301 {
Some('\u{1EA4}')
} else {
None
}
}
} else {
if b < 0x309 {
if b == 0x303 {
Some('\u{1EAA}')
} else {
None
}
} else {
if b == 0x309 {
Some('\u{1EA8}')
} else {
None
}
}
}
} else {
None
}
}
}
} else {
if a < 0xC5 {
if a == 0xC4 {
if b == 0x304 {
Some('\u{1DE}')
} else {
None
}
} else {
None
}
} else {
if a < 0xC6 {
if a == 0xC5 {
if b == 0x301 {
Some('\u{1FA}')
} else {
None
}
} else {
None
}
} else {
if a == 0xC6 {
if b < 0x304 {
if b == 0x301 {
Some('\u{1FC}')
} else {
None
}
} else {
if b == 0x304 {
Some('\u{1E2}')
} else {
None
}
}
} else {
None
}
}
}
}
}
} else {
if a < 0xD8 {
if a < 0xD4 {
if a < 0xCA {
if a == 0xC7 {
if b == 0x301 {
Some('\u{1E08}')
} else {
None
}
} else {
None
}
} else {
if a < 0xCF {
if a == 0xCA {
if b < 0x303 {
if b < 0x301 {
if b == 0x300 {
Some('\u{1EC0}')
} else {
None
}
} else {
if b == 0x301 {
Some('\u{1EBE}')
} else {
None
}
}
} else {
if b < 0x309 {
if b == 0x303 {
Some('\u{1EC4}')
} else {
None
}
} else {
if b == 0x309 {
Some('\u{1EC2}')
} else {
None
}
}
}
} else {
None
}
} else {
if a == 0xCF {
if b == 0x301 {
Some('\u{1E2E}')
} else {
None
}
} else {
None
}
}
}
} else {
if a < 0xD5 {
if a == 0xD4 {
if b < 0x303 {
if b < 0x301 {
if b == 0x300 {
Some('\u{1ED2}')
} else {
None
}
} else {
if b == 0x301 {
Some('\u{1ED0}')
} else {
None
}
}
} else {
if b < 0x309 {
if b == 0x303 {
Some('\u{1ED6}')
} else {
None
}
} else {
if b == 0x309 {
Some('\u{1ED4}')
} else {
None
}
}
}
} else {
None
}
} else {
if a < 0xD6 {
if a == 0xD5 {
if b < 0x304 {
if b == 0x301 {
Some('\u{1E4C}')
} else {
None
}
} else {
if b < 0x308 {
if b == 0x304 {
Some('\u{22C}')
} else {
None
}
} else {
if b == 0x308 {
Some('\u{1E4E}')
} else {
None
}
}
}
} else {
None
}
} else {
if a == 0xD6 {
if b == 0x304 {
Some('\u{22A}')
} else {
None
}
} else {
None
}
}
}
}
} else {
if a < 0xE4 {
if a < 0xDC {
if a == 0xD8 {
if b == 0x301 {
Some('\u{1FE}')
} else {
None
}
} else {
None
}
} else {
if a < 0xE2 {
if a == 0xDC {
if b < 0x304 {
if b < 0x301 {
if b == 0x300 {
Some('\u{1DB}')
} else {
None
}
} else {
if b == 0x301 {
Some('\u{1D7}')
} else {
None
}
}
} else {
if b < 0x30C {
if b == 0x304 {
Some('\u{1D5}')
} else {
None
}
} else {
if b == 0x30C {
Some('\u{1D9}')
} else {
None
}
}
}
} else {
None
}
} else {
if a == 0xE2 {
if b < 0x303 {
if b < 0x301 {
if b == 0x300 {
Some('\u{1EA7}')
} else {
None
}
} else {
if b == 0x301 {
Some('\u{1EA5}')
} else {
None
}
}
} else {
if b < 0x309 {
if b == 0x303 {
Some('\u{1EAB}')
} else {
None
}
} else {
if b == 0x309 {
Some('\u{1EA9}')
} else {
None
}
}
}
} else {
None
}
}
}
} else {
if a < 0xE5 {
if a == 0xE4 {
if b == 0x304 {
Some('\u{1DF}')
} else {
None
}
} else {
None
}
} else {
if a < 0xE6 {
if a == 0xE5 {
if b == 0x301 {
Some('\u{1FB}')
} else {
None
}
} else {
None
}
} else {
if a == 0xE6 {
if b < 0x304 {
if b == 0x301 {
Some('\u{1FD}')
} else {
None
}
} else {
if b == 0x304 {
Some('\u{1E3}')
} else {
None
}
}
} else {
None
}
}
}
}
}
}
} else {
if a < 0x14C {
if a < 0xF8 {
if a < 0xF4 {
if a < 0xEA {
if a == 0xE7 {
if b == 0x301 {
Some('\u{1E09}')
} else {
None
}
} else {
None
}
} else {
if a < 0xEF {
if a == 0xEA {
if b < 0x303 {
if b < 0x301 {
if b == 0x300 {
Some('\u{1EC1}')
} else {
None
}
} else {
if b == 0x301 {
Some('\u{1EBF}')
} else {
None
}
}
} else {
if b < 0x309 {
if b == 0x303 {
Some('\u{1EC5}')
} else {
None
}
} else {
if b == 0x309 {
Some('\u{1EC3}')
} else {
None
}
}
}
} else {
None
}
} else {
if a == 0xEF {
if b == 0x301 {
Some('\u{1E2F}')
} else {
None
}
} else {
None
}
}
}
} else {
if a < 0xF5 {
if a == 0xF4 {
if b < 0x303 {
if b < 0x301 {
if b == 0x300 {
Some('\u{1ED3}')
} else {
None
}
} else {
if b == 0x301 {
Some('\u{1ED1}')
} else {
None
}
}
} else {
if b < 0x309 {
if b == 0x303 {
Some('\u{1ED7}')
} else {
None
}
} else {
if b == 0x309 {
Some('\u{1ED5}')
} else {
None
}
}
}
} else {
None
}
} else {
if a < 0xF6 {
if a == 0xF5 {
if b < 0x304 {
if b == 0x301 {
Some('\u{1E4D}')
} else {
None
}
} else {
if b < 0x308 {
if b == 0x304 {
Some('\u{22D}')
} else {
None
}
} else {
if b == 0x308 {
Some('\u{1E4F}')
} else {
None
}
}
}
} else {
None
}
} else {
if a == 0xF6 {
if b == 0x304 {
Some('\u{22B}')
} else {
None
}
} else {
None
}
}
}
}
} else {
if a < 0x103 {
if a < 0xFC {
if a == 0xF8 {
if b == 0x301 {
Some('\u{1FF}')
} else {
None
}
} else {
None
}
} else {
if a < 0x102 {
if a == 0xFC {
if b < 0x304 {
if b < 0x301 {
if b == 0x300 {
Some('\u{1DC}')
} else {
None
}
} else {
if b == 0x301 {
Some('\u{1D8}')
} else {
None
}
}
} else {
if b < 0x30C {
if b == 0x304 {
Some('\u{1D6}')
} else {
None
}
} else {
if b == 0x30C {
Some('\u{1DA}')
} else {
None
}
}
}
} else {
None
}
} else {
if a == 0x102 {
if b < 0x303 {
if b < 0x301 {
if b == 0x300 {
Some('\u{1EB0}')
} else {
None
}
} else {
if b == 0x301 {
Some('\u{1EAE}')
} else {
None
}
}
} else {
if b < 0x309 {
if b == 0x303 {
Some('\u{1EB4}')
} else {
None
}
} else {
if b == 0x309 {
Some('\u{1EB2}')
} else {
None
}
}
}
} else {
None
}
}
}
} else {
if a < 0x112 {
if a == 0x103 {
if b < 0x303 {
if b < 0x301 {
if b == 0x300 {
Some('\u{1EB1}')
} else {
None
}
} else {
if b == 0x301 {
Some('\u{1EAF}')
} else {
None
}
}
} else {
if b < 0x309 {
if b == 0x303 {
Some('\u{1EB5}')
} else {
None
}
} else {
if b == 0x309 {
Some('\u{1EB3}')
} else {
None
}
}
}
} else {
None
}
} else {
if a < 0x113 {
if a == 0x112 {
if b < 0x301 {
if b == 0x300 {
Some('\u{1E14}')
} else {
None
}
} else {
if b == 0x301 {
Some('\u{1E16}')
} else {
None
}
}
} else {
None
}
} else {
if a == 0x113 {
if b < 0x301 {
if b == 0x300 {
Some('\u{1E15}')
} else {
None
}
} else {
if b == 0x301 {
Some('\u{1E17}')
} else {
None
}
}
} else {
None
}
}
}
}
}
} else {
if a < 0x168 {
if a < 0x15B {
if a < 0x14D {
if a == 0x14C {
if b < 0x301 {
if b == 0x300 {
Some('\u{1E50}')
} else {
None
}
} else {
if b == 0x301 {
Some('\u{1E52}')
} else {
None
}
}
} else {
None
}
} else {
if a < 0x15A {
if a == 0x14D {
if b < 0x301 {
if b == 0x300 {
Some('\u{1E51}')
} else {
None
}
} else {
if b == 0x301 {
Some('\u{1E53}')
} else {
None
}
}
} else {
None
}
} else {
if a == 0x15A {
if b == 0x307 {
Some('\u{1E64}')
} else {
None
}
} else {
None
}
}
}
} else {
if a < 0x160 {
if a == 0x15B {
if b == 0x307 {
Some('\u{1E65}')
} else {
None
}
} else {
None
}
} else {
if a < 0x161 {
if a == 0x160 {
if b == 0x307 {
Some('\u{1E66}')
} else {
None
}
} else {
None
}
} else {
if a == 0x161 {
if b == 0x307 {
Some('\u{1E67}')
} else {
None
}
} else {
None
}
}
}
}
} else {
if a < 0x16B {
if a < 0x169 {
if a == 0x168 {
if b == 0x301 {
Some('\u{1E78}')
} else {
None
}
} else {
None
}
} else {
if a < 0x16A {
if a == 0x169 {
if b == 0x301 {
Some('\u{1E79}')
} else {
None
}
} else {
None
}
} else {
if a == 0x16A {
if b == 0x308 {
Some('\u{1E7A}')
} else {
None
}
} else {
None
}
}
}
} else {
if a < 0x17F {
if a == 0x16B {
if b == 0x308 {
Some('\u{1E7B}')
} else {
None
}
} else {
None
}
} else {
if a < 0x1A0 {
if a == 0x17F {
if b == 0x307 {
Some('\u{1E9B}')
} else {
None
}
} else {
None
}
} else {
if a == 0x1A0 {
if b < 0x303 {
if b < 0x301 {
if b == 0x300 {
Some('\u{1EDC}')
} else {
None
}
} else {
if b == 0x301 {
Some('\u{1EDA}')
} else {
None
}
}
} else {
if b < 0x309 {
if b == 0x303 {
Some('\u{1EE0}')
} else {
None
}
} else {
if b < 0x323 {
if b == 0x309 {
Some('\u{1EDE}')
} else {
None
}
} else {
if b == 0x323 {
Some('\u{1EE2}')
} else {
None
}
}
}
}
} else {
None
}
}
}
}
}
}
}
}
} else {
if a < 0x42D {
if a < 0x3B1 {
if a < 0x22F {
if a < 0x1EB {
if a < 0x1B0 {
if a < 0x1AF {
if a == 0x1A1 {
if b < 0x303 {
if b < 0x301 {
if b == 0x300 {
Some('\u{1EDD}')
} else {
None
}
} else {
if b == 0x301 {
Some('\u{1EDB}')
} else {
None
}
}
} else {
if b < 0x309 {
if b == 0x303 {
Some('\u{1EE1}')
} else {
None
}
} else {
if b < 0x323 {
if b == 0x309 {
Some('\u{1EDF}')
} else {
None
}
} else {
if b == 0x323 {
Some('\u{1EE3}')
} else {
None
}
}
}
}
} else {
None
}
} else {
if a == 0x1AF {
if b < 0x303 {
if b < 0x301 {
if b == 0x300 {
Some('\u{1EEA}')
} else {
None
}
} else {
if b == 0x301 {
Some('\u{1EE8}')
} else {
None
}
}
} else {
if b < 0x309 {
if b == 0x303 {
Some('\u{1EEE}')
} else {
None
}
} else {
if b < 0x323 {
if b == 0x309 {
Some('\u{1EEC}')
} else {
None
}
} else {
if b == 0x323 {
Some('\u{1EF0}')
} else {
None
}
}
}
}
} else {
None
}
}
} else {
if a < 0x1B7 {
if a == 0x1B0 {
if b < 0x303 {
if b < 0x301 {
if b == 0x300 {
Some('\u{1EEB}')
} else {
None
}
} else {
if b == 0x301 {
Some('\u{1EE9}')
} else {
None
}
}
} else {
if b < 0x309 {
if b == 0x303 {
Some('\u{1EEF}')
} else {
None
}
} else {
if b < 0x323 {
if b == 0x309 {
Some('\u{1EED}')
} else {
None
}
} else {
if b == 0x323 {
Some('\u{1EF1}')
} else {
None
}
}
}
}
} else {
None
}
} else {
if a < 0x1EA {
if a == 0x1B7 {
if b == 0x30C {
Some('\u{1EE}')
} else {
None
}
} else {
None
}
} else {
if a == 0x1EA {
if b == 0x304 {
Some('\u{1EC}')
} else {
None
}
} else {
None
}
}
}
}
} else {
if a < 0x228 {
if a < 0x226 {
if a == 0x1EB {
if b == 0x304 {
Some('\u{1ED}')
} else {
None
}
} else {
None
}
} else {
if a < 0x227 {
if a == 0x226 {
if b == 0x304 {
Some('\u{1E0}')
} else {
None
}
} else {
None
}
} else {
if a == 0x227 {
if b == 0x304 {
Some('\u{1E1}')
} else {
None
}
} else {
None
}
}
}
} else {
if a < 0x229 {
if a == 0x228 {
if b == 0x306 {
Some('\u{1E1C}')
} else {
None
}
} else {
None
}
} else {
if a < 0x22E {
if a == 0x229 {
if b == 0x306 {
Some('\u{1E1D}')
} else {
None
}
} else {
None
}
} else {
if a == 0x22E {
if b == 0x304 {
Some('\u{230}')
} else {
None
}
} else {
None
}
}
}
}
}
} else {
if a < 0x39F {
if a < 0x395 {
if a < 0x292 {
if a == 0x22F {
if b == 0x304 {
Some('\u{231}')
} else {
None
}
} else {
None
}
} else {
if a < 0x391 {
if a == 0x292 {
if b == 0x30C {
Some('\u{1EF}')
} else {
None
}
} else {
None
}
} else {
if a == 0x391 {
if b < 0x306 {
if b < 0x301 {
if b == 0x300 {
Some('\u{1FBA}')
} else {
None
}
} else {
if b < 0x304 {
if b == 0x301 {
Some('\u{386}')
} else {
None
}
} else {
if b == 0x304 {
Some('\u{1FB9}')
} else {
None
}
}
}
} else {
if b < 0x314 {
if b < 0x313 {
if b == 0x306 {
Some('\u{1FB8}')
} else {
None
}
} else {
if b == 0x313 {
Some('\u{1F08}')
} else {
None
}
}
} else {
if b < 0x345 {
if b == 0x314 {
Some('\u{1F09}')
} else {
None
}
} else {
if b == 0x345 {
Some('\u{1FBC}')
} else {
None
}
}
}
}
} else {
None
}
}
}
} else {
if a < 0x397 {
if a == 0x395 {
if b < 0x313 {
if b < 0x301 {
if b == 0x300 {
Some('\u{1FC8}')
} else {
None
}
} else {
if b == 0x301 {
Some('\u{388}')
} else {
None
}
}
} else {
if b < 0x314 {
if b == 0x313 {
Some('\u{1F18}')
} else {
None
}
} else {
if b == 0x314 {
Some('\u{1F19}')
} else {
None
}
}
}
} else {
None
}
} else {
if a < 0x399 {
if a == 0x397 {
if b < 0x313 {
if b < 0x301 {
if b == 0x300 {
Some('\u{1FCA}')
} else {
None
}
} else {
if b == 0x301 {
Some('\u{389}')
} else {
None
}
}
} else {
if b < 0x314 {
if b == 0x313 {
Some('\u{1F28}')
} else {
None
}
} else {
if b < 0x345 {
if b == 0x314 {
Some('\u{1F29}')
} else {
None
}
} else {
if b == 0x345 {
Some('\u{1FCC}')
} else {
None
}
}
}
}
} else {
None
}
} else {
if a == 0x399 {
if b < 0x306 {
if b < 0x301 {
if b == 0x300 {
Some('\u{1FDA}')
} else {
None
}
} else {
if b < 0x304 {
if b == 0x301 {
Some('\u{38A}')
} else {
None
}
} else {
if b == 0x304 {
Some('\u{1FD9}')
} else {
None
}
}
}
} else {
if b < 0x313 {
if b < 0x308 {
if b == 0x306 {
Some('\u{1FD8}')
} else {
None
}
} else {
if b == 0x308 {
Some('\u{3AA}')
} else {
None
}
}
} else {
if b < 0x314 {
if b == 0x313 {
Some('\u{1F38}')
} else {
None
}
} else {
if b == 0x314 {
Some('\u{1F39}')
} else {
None
}
}
}
}
} else {
None
}
}
}
}
} else {
if a < 0x3A9 {
if a < 0x3A1 {
if a == 0x39F {
if b < 0x313 {
if b < 0x301 {
if b == 0x300 {
Some('\u{1FF8}')
} else {
None
}
} else {
if b == 0x301 {
Some('\u{38C}')
} else {
None
}
}
} else {
if b < 0x314 {
if b == 0x313 {
Some('\u{1F48}')
} else {
None
}
} else {
if b == 0x314 {
Some('\u{1F49}')
} else {
None
}
}
}
} else {
None
}
} else {
if a < 0x3A5 {
if a == 0x3A1 {
if b == 0x314 {
Some('\u{1FEC}')
} else {
None
}
} else {
None
}
} else {
if a == 0x3A5 {
if b < 0x306 {
if b < 0x301 {
if b == 0x300 {
Some('\u{1FEA}')
} else {
None
}
} else {
if b < 0x304 {
if b == 0x301 {
Some('\u{38E}')
} else {
None
}
} else {
if b == 0x304 {
Some('\u{1FE9}')
} else {
None
}
}
}
} else {
if b < 0x308 {
if b == 0x306 {
Some('\u{1FE8}')
} else {
None
}
} else {
if b < 0x314 {
if b == 0x308 {
Some('\u{3AB}')
} else {
None
}
} else {
if b == 0x314 {
Some('\u{1F59}')
} else {
None
}
}
}
}
} else {
None
}
}
}
} else {
if a < 0x3AC {
if a == 0x3A9 {
if b < 0x313 {
if b < 0x301 {
if b == 0x300 {
Some('\u{1FFA}')
} else {
None
}
} else {
if b == 0x301 {
Some('\u{38F}')
} else {
None
}
}
} else {
if b < 0x314 {
if b == 0x313 {
Some('\u{1F68}')
} else {
None
}
} else {
if b < 0x345 {
if b == 0x314 {
Some('\u{1F69}')
} else {
None
}
} else {
if b == 0x345 {
Some('\u{1FFC}')
} else {
None
}
}
}
}
} else {
None
}
} else {
if a < 0x3AE {
if a == 0x3AC {
if b == 0x345 {
Some('\u{1FB4}')
} else {
None
}
} else {
None
}
} else {
if a == 0x3AE {
if b == 0x345 {
Some('\u{1FC4}')
} else {
None
}
} else {
None
}
}
}
}
}
}
} else {
if a < 0x406 {
if a < 0x3C5 {
if a < 0x3B9 {
if a < 0x3B5 {
if a == 0x3B1 {
if b < 0x313 {
if b < 0x304 {
if b < 0x301 {
if b == 0x300 {
Some('\u{1F70}')
} else {
None
}
} else {
if b == 0x301 {
Some('\u{3AC}')
} else {
None
}
}
} else {
if b < 0x306 {
if b == 0x304 {
Some('\u{1FB1}')
} else {
None
}
} else {
if b == 0x306 {
Some('\u{1FB0}')
} else {
None
}
}
}
} else {
if b < 0x342 {
if b < 0x314 {
if b == 0x313 {
Some('\u{1F00}')
} else {
None
}
} else {
if b == 0x314 {
Some('\u{1F01}')
} else {
None
}
}
} else {
if b < 0x345 {
if b == 0x342 {
Some('\u{1FB6}')
} else {
None
}
} else {
if b == 0x345 {
Some('\u{1FB3}')
} else {
None
}
}
}
}
} else {
None
}
} else {
if a < 0x3B7 {
if a == 0x3B5 {
if b < 0x313 {
if b < 0x301 {
if b == 0x300 {
Some('\u{1F72}')
} else {
None
}
} else {
if b == 0x301 {
Some('\u{3AD}')
} else {
None
}
}
} else {
if b < 0x314 {
if b == 0x313 {
Some('\u{1F10}')
} else {
None
}
} else {
if b == 0x314 {
Some('\u{1F11}')
} else {
None
}
}
}
} else {
None
}
} else {
if a == 0x3B7 {
if b < 0x314 {
if b < 0x301 {
if b == 0x300 {
Some('\u{1F74}')
} else {
None
}
} else {
if b < 0x313 {
if b == 0x301 {
Some('\u{3AE}')
} else {
None
}
} else {
if b == 0x313 {
Some('\u{1F20}')
} else {
None
}
}
}
} else {
if b < 0x342 {
if b == 0x314 {
Some('\u{1F21}')
} else {
None
}
} else {
if b < 0x345 {
if b == 0x342 {
Some('\u{1FC6}')
} else {
None
}
} else {
if b == 0x345 {
Some('\u{1FC3}')
} else {
None
}
}
}
}
} else {
None
}
}
}
} else {
if a < 0x3BF {
if a == 0x3B9 {
if b < 0x308 {
if b < 0x304 {
if b < 0x301 {
if b == 0x300 {
Some('\u{1F76}')
} else {
None
}
} else {
if b == 0x301 {
Some('\u{3AF}')
} else {
None
}
}
} else {
if b < 0x306 {
if b == 0x304 {
Some('\u{1FD1}')
} else {
None
}
} else {
if b == 0x306 {
Some('\u{1FD0}')
} else {
None
}
}
}
} else {
if b < 0x314 {
if b < 0x313 {
if b == 0x308 {
Some('\u{3CA}')
} else {
None
}
} else {
if b == 0x313 {
Some('\u{1F30}')
} else {
None
}
}
} else {
if b < 0x342 {
if b == 0x314 {
Some('\u{1F31}')
} else {
None
}
} else {
if b == 0x342 {
Some('\u{1FD6}')
} else {
None
}
}
}
}
} else {
None
}
} else {
if a < 0x3C1 {
if a == 0x3BF {
if b < 0x313 {
if b < 0x301 {
if b == 0x300 {
Some('\u{1F78}')
} else {
None
}
} else {
if b == 0x301 {
Some('\u{3CC}')
} else {
None
}
}
} else {
if b < 0x314 {
if b == 0x313 {
Some('\u{1F40}')
} else {
None
}
} else {
if b == 0x314 {
Some('\u{1F41}')
} else {
None
}
}
}
} else {
None
}
} else {
if a == 0x3C1 {
if b < 0x314 {
if b == 0x313 {
Some('\u{1FE4}')
} else {
None
}
} else {
if b == 0x314 {
Some('\u{1FE5}')
} else {
None
}
}
} else {
None
}
}
}
}
} else {
if a < 0x3CB {
if a < 0x3C9 {
if a == 0x3C5 {
if b < 0x308 {
if b < 0x304 {
if b < 0x301 {
if b == 0x300 {
Some('\u{1F7A}')
} else {
None
}
} else {
if b == 0x301 {
Some('\u{3CD}')
} else {
None
}
}
} else {
if b < 0x306 {
if b == 0x304 {
Some('\u{1FE1}')
} else {
None
}
} else {
if b == 0x306 {
Some('\u{1FE0}')
} else {
None
}
}
}
} else {
if b < 0x314 {
if b < 0x313 {
if b == 0x308 {
Some('\u{3CB}')
} else {
None
}
} else {
if b == 0x313 {
Some('\u{1F50}')
} else {
None
}
}
} else {
if b < 0x342 {
if b == 0x314 {
Some('\u{1F51}')
} else {
None
}
} else {
if b == 0x342 {
Some('\u{1FE6}')
} else {
None
}
}
}
}
} else {
None
}
} else {
if a < 0x3CA {
if a == 0x3C9 {
if b < 0x314 {
if b < 0x301 {
if b == 0x300 {
Some('\u{1F7C}')
} else {
None
}
} else {
if b < 0x313 {
if b == 0x301 {
Some('\u{3CE}')
} else {
None
}
} else {
if b == 0x313 {
Some('\u{1F60}')
} else {
None
}
}
}
} else {
if b < 0x342 {
if b == 0x314 {
Some('\u{1F61}')
} else {
None
}
} else {
if b < 0x345 {
if b == 0x342 {
Some('\u{1FF6}')
} else {
None
}
} else {
if b == 0x345 {
Some('\u{1FF3}')
} else {
None
}
}
}
}
} else {
None
}
} else {
if a == 0x3CA {
if b < 0x301 {
if b == 0x300 {
Some('\u{1FD2}')
} else {
None
}
} else {
if b < 0x342 {
if b == 0x301 {
Some('\u{390}')
} else {
None
}
} else {
if b == 0x342 {
Some('\u{1FD7}')
} else {
None
}
}
}
} else {
None
}
}
}
} else {
if a < 0x3CE {
if a == 0x3CB {
if b < 0x301 {
if b == 0x300 {
Some('\u{1FE2}')
} else {
None
}
} else {
if b < 0x342 {
if b == 0x301 {
Some('\u{3B0}')
} else {
None
}
} else {
if b == 0x342 {
Some('\u{1FE7}')
} else {
None
}
}
}
} else {
None
}
} else {
if a < 0x3D2 {
if a == 0x3CE {
if b == 0x345 {
Some('\u{1FF4}')
} else {
None
}
} else {
None
}
} else {
if a == 0x3D2 {
if b < 0x308 {
if b == 0x301 {
Some('\u{3D3}')
} else {
None
}
} else {
if b == 0x308 {
Some('\u{3D4}')
} else {
None
}
}
} else {
None
}
}
}
}
}
} else {
if a < 0x418 {
if a < 0x415 {
if a < 0x410 {
if a == 0x406 {
if b == 0x308 {
Some('\u{407}')
} else {
None
}
} else {
None
}
} else {
if a < 0x413 {
if a == 0x410 {
if b < 0x308 {
if b == 0x306 {
Some('\u{4D0}')
} else {
None
}
} else {
if b == 0x308 {
Some('\u{4D2}')
} else {
None
}
}
} else {
None
}
} else {
if a == 0x413 {
if b == 0x301 {
Some('\u{403}')
} else {
None
}
} else {
None
}
}
}
} else {
if a < 0x416 {
if a == 0x415 {
if b < 0x306 {
if b == 0x300 {
Some('\u{400}')
} else {
None
}
} else {
if b < 0x308 {
if b == 0x306 {
Some('\u{4D6}')
} else {
None
}
} else {
if b == 0x308 {
Some('\u{401}')
} else {
None
}
}
}
} else {
None
}
} else {
if a < 0x417 {
if a == 0x416 {
if b < 0x308 {
if b == 0x306 {
Some('\u{4C1}')
} else {
None
}
} else {
if b == 0x308 {
Some('\u{4DC}')
} else {
None
}
}
} else {
None
}
} else {
if a == 0x417 {
if b == 0x308 {
Some('\u{4DE}')
} else {
None
}
} else {
None
}
}
}
}
} else {
if a < 0x423 {
if a < 0x41A {
if a == 0x418 {
if b < 0x306 {
if b < 0x304 {
if b == 0x300 {
Some('\u{40D}')
} else {
None
}
} else {
if b == 0x304 {
Some('\u{4E2}')
} else {
None
}
}
} else {
if b < 0x308 {
if b == 0x306 {
Some('\u{419}')
} else {
None
}
} else {
if b == 0x308 {
Some('\u{4E4}')
} else {
None
}
}
}
} else {
None
}
} else {
if a < 0x41E {
if a == 0x41A {
if b == 0x301 {
Some('\u{40C}')
} else {
None
}
} else {
None
}
} else {
if a == 0x41E {
if b == 0x308 {
Some('\u{4E6}')
} else {
None
}
} else {
None
}
}
}
} else {
if a < 0x427 {
if a == 0x423 {
if b < 0x308 {
if b < 0x306 {
if b == 0x304 {
Some('\u{4EE}')
} else {
None
}
} else {
if b == 0x306 {
Some('\u{40E}')
} else {
None
}
}
} else {
if b < 0x30B {
if b == 0x308 {
Some('\u{4F0}')
} else {
None
}
} else {
if b == 0x30B {
Some('\u{4F2}')
} else {
None
}
}
}
} else {
None
}
} else {
if a < 0x42B {
if a == 0x427 {
if b == 0x308 {
Some('\u{4F4}')
} else {
None
}
} else {
None
}
} else {
if a == 0x42B {
if b == 0x308 {
Some('\u{4F8}')
} else {
None
}
} else {
None
}
}
}
}
}
}
}
} else {
if a < 0x6C1 {
if a < 0x44B {
if a < 0x437 {
if a < 0x433 {
if a < 0x430 {
if a == 0x42D {
if b == 0x308 {
Some('\u{4EC}')
} else {
None
}
} else {
None
}
} else {
if a == 0x430 {
if b < 0x308 {
if b == 0x306 {
Some('\u{4D1}')
} else {
None
}
} else {
if b == 0x308 {
Some('\u{4D3}')
} else {
None
}
}
} else {
None
}
}
} else {
if a < 0x435 {
if a == 0x433 {
if b == 0x301 {
Some('\u{453}')
} else {
None
}
} else {
None
}
} else {
if a < 0x436 {
if a == 0x435 {
if b < 0x306 {
if b == 0x300 {
Some('\u{450}')
} else {
None
}
} else {
if b < 0x308 {
if b == 0x306 {
Some('\u{4D7}')
} else {
None
}
} else {
if b == 0x308 {
Some('\u{451}')
} else {
None
}
}
}
} else {
None
}
} else {
if a == 0x436 {
if b < 0x308 {
if b == 0x306 {
Some('\u{4C2}')
} else {
None
}
} else {
if b == 0x308 {
Some('\u{4DD}')
} else {
None
}
}
} else {
None
}
}
}
}
} else {
if a < 0x43E {
if a < 0x438 {
if a == 0x437 {
if b == 0x308 {
Some('\u{4DF}')
} else {
None
}
} else {
None
}
} else {
if a < 0x43A {
if a == 0x438 {
if b < 0x306 {
if b < 0x304 {
if b == 0x300 {
Some('\u{45D}')
} else {
None
}
} else {
if b == 0x304 {
Some('\u{4E3}')
} else {
None
}
}
} else {
if b < 0x308 {
if b == 0x306 {
Some('\u{439}')
} else {
None
}
} else {
if b == 0x308 {
Some('\u{4E5}')
} else {
None
}
}
}
} else {
None
}
} else {
if a == 0x43A {
if b == 0x301 {
Some('\u{45C}')
} else {
None
}
} else {
None
}
}
}
} else {
if a < 0x443 {
if a == 0x43E {
if b == 0x308 {
Some('\u{4E7}')
} else {
None
}
} else {
None
}
} else {
if a < 0x447 {
if a == 0x443 {
if b < 0x308 {
if b < 0x306 {
if b == 0x304 {
Some('\u{4EF}')
} else {
None
}
} else {
if b == 0x306 {
Some('\u{45E}')
} else {
None
}
}
} else {
if b < 0x30B {
if b == 0x308 {
Some('\u{4F1}')
} else {
None
}
} else {
if b == 0x30B {
Some('\u{4F3}')
} else {
None
}
}
}
} else {
None
}
} else {
if a == 0x447 {
if b == 0x308 {
Some('\u{4F5}')
} else {
None
}
} else {
None
}
}
}
}
}
} else {
if a < 0x4D9 {
if a < 0x474 {
if a < 0x44D {
if a == 0x44B {
if b == 0x308 {
Some('\u{4F9}')
} else {
None
}
} else {
None
}
} else {
if a < 0x456 {
if a == 0x44D {
if b == 0x308 {
Some('\u{4ED}')
} else {
None
}
} else {
None
}
} else {
if a == 0x456 {
if b == 0x308 {
Some('\u{457}')
} else {
None
}
} else {
None
}
}
}
} else {
if a < 0x475 {
if a == 0x474 {
if b == 0x30F {
Some('\u{476}')
} else {
None
}
} else {
None
}
} else {
if a < 0x4D8 {
if a == 0x475 {
if b == 0x30F {
Some('\u{477}')
} else {
None
}
} else {
None
}
} else {
if a == 0x4D8 {
if b == 0x308 {
Some('\u{4DA}')
} else {
None
}
} else {
None
}
}
}
}
} else {
if a < 0x627 {
if a < 0x4E8 {
if a == 0x4D9 {
if b == 0x308 {
Some('\u{4DB}')
} else {
None
}
} else {
None
}
} else {
if a < 0x4E9 {
if a == 0x4E8 {
if b == 0x308 {
Some('\u{4EA}')
} else {
None
}
} else {
None
}
} else {
if a == 0x4E9 {
if b == 0x308 {
Some('\u{4EB}')
} else {
None
}
} else {
None
}
}
}
} else {
if a < 0x648 {
if a == 0x627 {
if b < 0x654 {
if b == 0x653 {
Some('\u{622}')
} else {
None
}
} else {
if b < 0x655 {
if b == 0x654 {
Some('\u{623}')
} else {
None
}
} else {
if b == 0x655 {
Some('\u{625}')
} else {
None
}
}
}
} else {
None
}
} else {
if a < 0x64A {
if a == 0x648 {
if b == 0x654 {
Some('\u{624}')
} else {
None
}
} else {
None
}
} else {
if a == 0x64A {
if b == 0x654 {
Some('\u{626}')
} else {
None
}
} else {
None
}
}
}
}
}
}
} else {
if a < 0xCBF {
if a < 0x9C7 {
if a < 0x928 {
if a < 0x6D2 {
if a == 0x6C1 {
if b == 0x654 {
Some('\u{6C2}')
} else {
None
}
} else {
None
}
} else {
if a < 0x6D5 {
if a == 0x6D2 {
if b == 0x654 {
Some('\u{6D3}')
} else {
None
}
} else {
None
}
} else {
if a == 0x6D5 {
if b == 0x654 {
Some('\u{6C0}')
} else {
None
}
} else {
None
}
}
}
} else {
if a < 0x930 {
if a == 0x928 {
if b == 0x93C {
Some('\u{929}')
} else {
None
}
} else {
None
}
} else {
if a < 0x933 {
if a == 0x930 {
if b == 0x93C {
Some('\u{931}')
} else {
None
}
} else {
None
}
} else {
if a == 0x933 {
if b == 0x93C {
Some('\u{934}')
} else {
None
}
} else {
None
}
}
}
}
} else {
if a < 0xBC6 {
if a < 0xB47 {
if a == 0x9C7 {
if b < 0x9D7 {
if b == 0x9BE {
Some('\u{9CB}')
} else {
None
}
} else {
if b == 0x9D7 {
Some('\u{9CC}')
} else {
None
}
}
} else {
None
}
} else {
if a < 0xB92 {
if a == 0xB47 {
if b < 0xB56 {
if b == 0xB3E {
Some('\u{B4B}')
} else {
None
}
} else {
if b < 0xB57 {
if b == 0xB56 {
Some('\u{B48}')
} else {
None
}
} else {
if b == 0xB57 {
Some('\u{B4C}')
} else {
None
}
}
}
} else {
None
}
} else {
if a == 0xB92 {
if b == 0xBD7 {
Some('\u{B94}')
} else {
None
}
} else {
None
}
}
}
} else {
if a < 0xBC7 {
if a == 0xBC6 {
if b < 0xBD7 {
if b == 0xBBE {
Some('\u{BCA}')
} else {
None
}
} else {
if b == 0xBD7 {
Some('\u{BCC}')
} else {
None
}
}
} else {
None
}
} else {
if a < 0xC46 {
if a == 0xBC7 {
if b == 0xBBE {
Some('\u{BCB}')
} else {
None
}
} else {
None
}
} else {
if a == 0xC46 {
if b == 0xC56 {
Some('\u{C48}')
} else {
None
}
} else {
None
}
}
}
}
}
} else {
if a < 0xDDC {
if a < 0xD46 {
if a < 0xCC6 {
if a == 0xCBF {
if b == 0xCD5 {
Some('\u{CC0}')
} else {
None
}
} else {
None
}
} else {
if a < 0xCCA {
if a == 0xCC6 {
if b < 0xCD5 {
if b == 0xCC2 {
Some('\u{CCA}')
} else {
None
}
} else {
if b < 0xCD6 {
if b == 0xCD5 {
Some('\u{CC7}')
} else {
None
}
} else {
if b == 0xCD6 {
Some('\u{CC8}')
} else {
None
}
}
}
} else {
None
}
} else {
if a == 0xCCA {
if b == 0xCD5 {
Some('\u{CCB}')
} else {
None
}
} else {
None
}
}
}
} else {
if a < 0xD47 {
if a == 0xD46 {
if b < 0xD57 {
if b == 0xD3E {
Some('\u{D4A}')
} else {
None
}
} else {
if b == 0xD57 {
Some('\u{D4C}')
} else {
None
}
}
} else {
None
}
} else {
if a < 0xDD9 {
if a == 0xD47 {
if b == 0xD3E {
Some('\u{D4B}')
} else {
None
}
} else {
None
}
} else {
if a == 0xDD9 {
if b < 0xDCF {
if b == 0xDCA {
Some('\u{DDA}')
} else {
None
}
} else {
if b < 0xDDF {
if b == 0xDCF {
Some('\u{DDC}')
} else {
None
}
} else {
if b == 0xDDF {
Some('\u{DDE}')
} else {
None
}
}
}
} else {
None
}
}
}
}
} else {
if a < 0x1B07 {
if a < 0x1025 {
if a == 0xDDC {
if b == 0xDCA {
Some('\u{DDD}')
} else {
None
}
} else {
None
}
} else {
if a < 0x1B05 {
if a == 0x1025 {
if b == 0x102E {
Some('\u{1026}')
} else {
None
}
} else {
None
}
} else {
if a == 0x1B05 {
if b == 0x1B35 {
Some('\u{1B06}')
} else {
None
}
} else {
None
}
}
}
} else {
if a < 0x1B09 {
if a == 0x1B07 {
if b == 0x1B35 {
Some('\u{1B08}')
} else {
None
}
} else {
None
}
} else {
if a < 0x1B0B {
if a == 0x1B09 {
if b == 0x1B35 {
Some('\u{1B0A}')
} else {
None
}
} else {
None
}
} else {
if a == 0x1B0B {
if b == 0x1B35 {
Some('\u{1B0C}')
} else {
None
}
} else {
None
}
}
}
}
}
}
}
}
}
} else {
if a < 0x21D2 {
if a < 0x1F28 {
if a < 0x1F04 {
if a < 0x1E62 {
if a < 0x1B3F {
if a < 0x1B3A {
if a < 0x1B11 {
if a == 0x1B0D {
if b == 0x1B35 {
Some('\u{1B0E}')
} else {
None
}
} else {
None
}
} else {
if a == 0x1B11 {
if b == 0x1B35 {
Some('\u{1B12}')
} else {
None
}
} else {
None
}
}
} else {
if a < 0x1B3C {
if a == 0x1B3A {
if b == 0x1B35 {
Some('\u{1B3B}')
} else {
None
}
} else {
None
}
} else {
if a < 0x1B3E {
if a == 0x1B3C {
if b == 0x1B35 {
Some('\u{1B3D}')
} else {
None
}
} else {
None
}
} else {
if a == 0x1B3E {
if b == 0x1B35 {
Some('\u{1B40}')
} else {
None
}
} else {
None
}
}
}
}
} else {
if a < 0x1E37 {
if a < 0x1B42 {
if a == 0x1B3F {
if b == 0x1B35 {
Some('\u{1B41}')
} else {
None
}
} else {
None
}
} else {
if a < 0x1E36 {
if a == 0x1B42 {
if b == 0x1B35 {
Some('\u{1B43}')
} else {
None
}
} else {
None
}
} else {
if a == 0x1E36 {
if b == 0x304 {
Some('\u{1E38}')
} else {
None
}
} else {
None
}
}
}
} else {
if a < 0x1E5A {
if a == 0x1E37 {
if b == 0x304 {
Some('\u{1E39}')
} else {
None
}
} else {
None
}
} else {
if a < 0x1E5B {
if a == 0x1E5A {
if b == 0x304 {
Some('\u{1E5C}')
} else {
None
}
} else {
None
}
} else {
if a == 0x1E5B {
if b == 0x304 {
Some('\u{1E5D}')
} else {
None
}
} else {
None
}
}
}
}
}
} else {
if a < 0x1ECC {
if a < 0x1EA1 {
if a < 0x1E63 {
if a == 0x1E62 {
if b == 0x307 {
Some('\u{1E68}')
} else {
None
}
} else {
None
}
} else {
if a < 0x1EA0 {
if a == 0x1E63 {
if b == 0x307 {
Some('\u{1E69}')
} else {
None
}
} else {
None
}
} else {
if a == 0x1EA0 {
if b < 0x306 {
if b == 0x302 {
Some('\u{1EAC}')
} else {
None
}
} else {
if b == 0x306 {
Some('\u{1EB6}')
} else {
None
}
}
} else {
None
}
}
}
} else {
if a < 0x1EB8 {
if a == 0x1EA1 {
if b < 0x306 {
if b == 0x302 {
Some('\u{1EAD}')
} else {
None
}
} else {
if b == 0x306 {
Some('\u{1EB7}')
} else {
None
}
}
} else {
None
}
} else {
if a < 0x1EB9 {
if a == 0x1EB8 {
if b == 0x302 {
Some('\u{1EC6}')
} else {
None
}
} else {
None
}
} else {
if a == 0x1EB9 {
if b == 0x302 {
Some('\u{1EC7}')
} else {
None
}
} else {
None
}
}
}
}
} else {
if a < 0x1F01 {
if a < 0x1ECD {
if a == 0x1ECC {
if b == 0x302 {
Some('\u{1ED8}')
} else {
None
}
} else {
None
}
} else {
if a < 0x1F00 {
if a == 0x1ECD {
if b == 0x302 {
Some('\u{1ED9}')
} else {
None
}
} else {
None
}
} else {
if a == 0x1F00 {
if b < 0x342 {
if b < 0x301 {
if b == 0x300 {
Some('\u{1F02}')
} else {
None
}
} else {
if b == 0x301 {
Some('\u{1F04}')
} else {
None
}
}
} else {
if b < 0x345 {
if b == 0x342 {
Some('\u{1F06}')
} else {
None
}
} else {
if b == 0x345 {
Some('\u{1F80}')
} else {
None
}
}
}
} else {
None
}
}
}
} else {
if a < 0x1F02 {
if a == 0x1F01 {
if b < 0x342 {
if b < 0x301 {
if b == 0x300 {
Some('\u{1F03}')
} else {
None
}
} else {
if b == 0x301 {
Some('\u{1F05}')
} else {
None
}
}
} else {
if b < 0x345 {
if b == 0x342 {
Some('\u{1F07}')
} else {
None
}
} else {
if b == 0x345 {
Some('\u{1F81}')
} else {
None
}
}
}
} else {
None
}
} else {
if a < 0x1F03 {
if a == 0x1F02 {
if b == 0x345 {
Some('\u{1F82}')
} else {
None
}
} else {
None
}
} else {
if a == 0x1F03 {
if b == 0x345 {
Some('\u{1F83}')
} else {
None
}
} else {
None
}
}
}
}
}
}
} else {
if a < 0x1F10 {
if a < 0x1F0A {
if a < 0x1F07 {
if a < 0x1F05 {
if a == 0x1F04 {
if b == 0x345 {
Some('\u{1F84}')
} else {
None
}
} else {
None
}
} else {
if a < 0x1F06 {
if a == 0x1F05 {
if b == 0x345 {
Some('\u{1F85}')
} else {
None
}
} else {
None
}
} else {
if a == 0x1F06 {
if b == 0x345 {
Some('\u{1F86}')
} else {
None
}
} else {
None
}
}
}
} else {
if a < 0x1F08 {
if a == 0x1F07 {
if b == 0x345 {
Some('\u{1F87}')
} else {
None
}
} else {
None
}
} else {
if a < 0x1F09 {
if a == 0x1F08 {
if b < 0x342 {
if b < 0x301 {
if b == 0x300 {
Some('\u{1F0A}')
} else {
None
}
} else {
if b == 0x301 {
Some('\u{1F0C}')
} else {
None
}
}
} else {
if b < 0x345 {
if b == 0x342 {
Some('\u{1F0E}')
} else {
None
}
} else {
if b == 0x345 {
Some('\u{1F88}')
} else {
None
}
}
}
} else {
None
}
} else {
if a == 0x1F09 {
if b < 0x342 {
if b < 0x301 {
if b == 0x300 {
Some('\u{1F0B}')
} else {
None
}
} else {
if b == 0x301 {
Some('\u{1F0D}')
} else {
None
}
}
} else {
if b < 0x345 {
if b == 0x342 {
Some('\u{1F0F}')
} else {
None
}
} else {
if b == 0x345 {
Some('\u{1F89}')
} else {
None
}
}
}
} else {
None
}
}
}
}
} else {
if a < 0x1F0D {
if a < 0x1F0B {
if a == 0x1F0A {
if b == 0x345 {
Some('\u{1F8A}')
} else {
None
}
} else {
None
}
} else {
if a < 0x1F0C {
if a == 0x1F0B {
if b == 0x345 {
Some('\u{1F8B}')
} else {
None
}
} else {
None
}
} else {
if a == 0x1F0C {
if b == 0x345 {
Some('\u{1F8C}')
} else {
None
}
} else {
None
}
}
}
} else {
if a < 0x1F0E {
if a == 0x1F0D {
if b == 0x345 {
Some('\u{1F8D}')
} else {
None
}
} else {
None
}
} else {
if a < 0x1F0F {
if a == 0x1F0E {
if b == 0x345 {
Some('\u{1F8E}')
} else {
None
}
} else {
None
}
} else {
if a == 0x1F0F {
if b == 0x345 {
Some('\u{1F8F}')
} else {
None
}
} else {
None
}
}
}
}
}
} else {
if a < 0x1F22 {
if a < 0x1F19 {
if a < 0x1F11 {
if a == 0x1F10 {
if b < 0x301 {
if b == 0x300 {
Some('\u{1F12}')
} else {
None
}
} else {
if b == 0x301 {
Some('\u{1F14}')
} else {
None
}
}
} else {
None
}
} else {
if a < 0x1F18 {
if a == 0x1F11 {
if b < 0x301 {
if b == 0x300 {
Some('\u{1F13}')
} else {
None
}
} else {
if b == 0x301 {
Some('\u{1F15}')
} else {
None
}
}
} else {
None
}
} else {
if a == 0x1F18 {
if b < 0x301 {
if b == 0x300 {
Some('\u{1F1A}')
} else {
None
}
} else {
if b == 0x301 {
Some('\u{1F1C}')
} else {
None
}
}
} else {
None
}
}
}
} else {
if a < 0x1F20 {
if a == 0x1F19 {
if b < 0x301 {
if b == 0x300 {
Some('\u{1F1B}')
} else {
None
}
} else {
if b == 0x301 {
Some('\u{1F1D}')
} else {
None
}
}
} else {
None
}
} else {
if a < 0x1F21 {
if a == 0x1F20 {
if b < 0x342 {
if b < 0x301 {
if b == 0x300 {
Some('\u{1F22}')
} else {
None
}
} else {
if b == 0x301 {
Some('\u{1F24}')
} else {
None
}
}
} else {
if b < 0x345 {
if b == 0x342 {
Some('\u{1F26}')
} else {
None
}
} else {
if b == 0x345 {
Some('\u{1F90}')
} else {
None
}
}
}
} else {
None
}
} else {
if a == 0x1F21 {
if b < 0x342 {
if b < 0x301 {
if b == 0x300 {
Some('\u{1F23}')
} else {
None
}
} else {
if b == 0x301 {
Some('\u{1F25}')
} else {
None
}
}
} else {
if b < 0x345 {
if b == 0x342 {
Some('\u{1F27}')
} else {
None
}
} else {
if b == 0x345 {
Some('\u{1F91}')
} else {
None
}
}
}
} else {
None
}
}
}
}
} else {
if a < 0x1F25 {
if a < 0x1F23 {
if a == 0x1F22 {
if b == 0x345 {
Some('\u{1F92}')
} else {
None
}
} else {
None
}
} else {
if a < 0x1F24 {
if a == 0x1F23 {
if b == 0x345 {
Some('\u{1F93}')
} else {
None
}
} else {
None
}
} else {
if a == 0x1F24 {
if b == 0x345 {
Some('\u{1F94}')
} else {
None
}
} else {
None
}
}
}
} else {
if a < 0x1F26 {
if a == 0x1F25 {
if b == 0x345 {
Some('\u{1F95}')
} else {
None
}
} else {
None
}
} else {
if a < 0x1F27 {
if a == 0x1F26 {
if b == 0x345 {
Some('\u{1F96}')
} else {
None
}
} else {
None
}
} else {
if a == 0x1F27 {
if b == 0x345 {
Some('\u{1F97}')
} else {
None
}
} else {
None
}
}
}
}
}
}
}
} else {
if a < 0x1F64 {
if a < 0x1F39 {
if a < 0x1F2D {
if a < 0x1F2A {
if a < 0x1F29 {
if a == 0x1F28 {
if b < 0x342 {
if b < 0x301 {
if b == 0x300 {
Some('\u{1F2A}')
} else {
None
}
} else {
if b == 0x301 {
Some('\u{1F2C}')
} else {
None
}
}
} else {
if b < 0x345 {
if b == 0x342 {
Some('\u{1F2E}')
} else {
None
}
} else {
if b == 0x345 {
Some('\u{1F98}')
} else {
None
}
}
}
} else {
None
}
} else {
if a == 0x1F29 {
if b < 0x342 {
if b < 0x301 {
if b == 0x300 {
Some('\u{1F2B}')
} else {
None
}
} else {
if b == 0x301 {
Some('\u{1F2D}')
} else {
None
}
}
} else {
if b < 0x345 {
if b == 0x342 {
Some('\u{1F2F}')
} else {
None
}
} else {
if b == 0x345 {
Some('\u{1F99}')
} else {
None
}
}
}
} else {
None
}
}
} else {
if a < 0x1F2B {
if a == 0x1F2A {
if b == 0x345 {
Some('\u{1F9A}')
} else {
None
}
} else {
None
}
} else {
if a < 0x1F2C {
if a == 0x1F2B {
if b == 0x345 {
Some('\u{1F9B}')
} else {
None
}
} else {
None
}
} else {
if a == 0x1F2C {
if b == 0x345 {
Some('\u{1F9C}')
} else {
None
}
} else {
None
}
}
}
}
} else {
if a < 0x1F30 {
if a < 0x1F2E {
if a == 0x1F2D {
if b == 0x345 {
Some('\u{1F9D}')
} else {
None
}
} else {
None
}
} else {
if a < 0x1F2F {
if a == 0x1F2E {
if b == 0x345 {
Some('\u{1F9E}')
} else {
None
}
} else {
None
}
} else {
if a == 0x1F2F {
if b == 0x345 {
Some('\u{1F9F}')
} else {
None
}
} else {
None
}
}
}
} else {
if a < 0x1F31 {
if a == 0x1F30 {
if b < 0x301 {
if b == 0x300 {
Some('\u{1F32}')
} else {
None
}
} else {
if b < 0x342 {
if b == 0x301 {
Some('\u{1F34}')
} else {
None
}
} else {
if b == 0x342 {
Some('\u{1F36}')
} else {
None
}
}
}
} else {
None
}
} else {
if a < 0x1F38 {
if a == 0x1F31 {
if b < 0x301 {
if b == 0x300 {
Some('\u{1F33}')
} else {
None
}
} else {
if b < 0x342 {
if b == 0x301 {
Some('\u{1F35}')
} else {
None
}
} else {
if b == 0x342 {
Some('\u{1F37}')
} else {
None
}
}
}
} else {
None
}
} else {
if a == 0x1F38 {
if b < 0x301 {
if b == 0x300 {
Some('\u{1F3A}')
} else {
None
}
} else {
if b < 0x342 {
if b == 0x301 {
Some('\u{1F3C}')
} else {
None
}
} else {
if b == 0x342 {
Some('\u{1F3E}')
} else {
None
}
}
}
} else {
None
}
}
}
}
}
} else {
if a < 0x1F51 {
if a < 0x1F48 {
if a < 0x1F40 {
if a == 0x1F39 {
if b < 0x301 {
if b == 0x300 {
Some('\u{1F3B}')
} else {
None
}
} else {
if b < 0x342 {
if b == 0x301 {
Some('\u{1F3D}')
} else {
None
}
} else {
if b == 0x342 {
Some('\u{1F3F}')
} else {
None
}
}
}
} else {
None
}
} else {
if a < 0x1F41 {
if a == 0x1F40 {
if b < 0x301 {
if b == 0x300 {
Some('\u{1F42}')
} else {
None
}
} else {
if b == 0x301 {
Some('\u{1F44}')
} else {
None
}
}
} else {
None
}
} else {
if a == 0x1F41 {
if b < 0x301 {
if b == 0x300 {
Some('\u{1F43}')
} else {
None
}
} else {
if b == 0x301 {
Some('\u{1F45}')
} else {
None
}
}
} else {
None
}
}
}
} else {
if a < 0x1F49 {
if a == 0x1F48 {
if b < 0x301 {
if b == 0x300 {
Some('\u{1F4A}')
} else {
None
}
} else {
if b == 0x301 {
Some('\u{1F4C}')
} else {
None
}
}
} else {
None
}
} else {
if a < 0x1F50 {
if a == 0x1F49 {
if b < 0x301 {
if b == 0x300 {
Some('\u{1F4B}')
} else {
None
}
} else {
if b == 0x301 {
Some('\u{1F4D}')
} else {
None
}
}
} else {
None
}
} else {
if a == 0x1F50 {
if b < 0x301 {
if b == 0x300 {
Some('\u{1F52}')
} else {
None
}
} else {
if b < 0x342 {
if b == 0x301 {
Some('\u{1F54}')
} else {
None
}
} else {
if b == 0x342 {
Some('\u{1F56}')
} else {
None
}
}
}
} else {
None
}
}
}
}
} else {
if a < 0x1F61 {
if a < 0x1F59 {
if a == 0x1F51 {
if b < 0x301 {
if b == 0x300 {
Some('\u{1F53}')
} else {
None
}
} else {
if b < 0x342 {
if b == 0x301 {
Some('\u{1F55}')
} else {
None
}
} else {
if b == 0x342 {
Some('\u{1F57}')
} else {
None
}
}
}
} else {
None
}
} else {
if a < 0x1F60 {
if a == 0x1F59 {
if b < 0x301 {
if b == 0x300 {
Some('\u{1F5B}')
} else {
None
}
} else {
if b < 0x342 {
if b == 0x301 {
Some('\u{1F5D}')
} else {
None
}
} else {
if b == 0x342 {
Some('\u{1F5F}')
} else {
None
}
}
}
} else {
None
}
} else {
if a == 0x1F60 {
if b < 0x342 {
if b < 0x301 {
if b == 0x300 {
Some('\u{1F62}')
} else {
None
}
} else {
if b == 0x301 {
Some('\u{1F64}')
} else {
None
}
}
} else {
if b < 0x345 {
if b == 0x342 {
Some('\u{1F66}')
} else {
None
}
} else {
if b == 0x345 {
Some('\u{1FA0}')
} else {
None
}
}
}
} else {
None
}
}
}
} else {
if a < 0x1F62 {
if a == 0x1F61 {
if b < 0x342 {
if b < 0x301 {
if b == 0x300 {
Some('\u{1F63}')
} else {
None
}
} else {
if b == 0x301 {
Some('\u{1F65}')
} else {
None
}
}
} else {
if b < 0x345 {
if b == 0x342 {
Some('\u{1F67}')
} else {
None
}
} else {
if b == 0x345 {
Some('\u{1FA1}')
} else {
None
}
}
}
} else {
None
}
} else {
if a < 0x1F63 {
if a == 0x1F62 {
if b == 0x345 {
Some('\u{1FA2}')
} else {
None
}
} else {
None
}
} else {
if a == 0x1F63 {
if b == 0x345 {
Some('\u{1FA3}')
} else {
None
}
} else {
None
}
}
}
}
}
}
} else {
if a < 0x1F70 {
if a < 0x1F6A {
if a < 0x1F67 {
if a < 0x1F65 {
if a == 0x1F64 {
if b == 0x345 {
Some('\u{1FA4}')
} else {
None
}
} else {
None
}
} else {
if a < 0x1F66 {
if a == 0x1F65 {
if b == 0x345 {
Some('\u{1FA5}')
} else {
None
}
} else {
None
}
} else {
if a == 0x1F66 {
if b == 0x345 {
Some('\u{1FA6}')
} else {
None
}
} else {
None
}
}
}
} else {
if a < 0x1F68 {
if a == 0x1F67 {
if b == 0x345 {
Some('\u{1FA7}')
} else {
None
}
} else {
None
}
} else {
if a < 0x1F69 {
if a == 0x1F68 {
if b < 0x342 {
if b < 0x301 {
if b == 0x300 {
Some('\u{1F6A}')
} else {
None
}
} else {
if b == 0x301 {
Some('\u{1F6C}')
} else {
None
}
}
} else {
if b < 0x345 {
if b == 0x342 {
Some('\u{1F6E}')
} else {
None
}
} else {
if b == 0x345 {
Some('\u{1FA8}')
} else {
None
}
}
}
} else {
None
}
} else {
if a == 0x1F69 {
if b < 0x342 {
if b < 0x301 {
if b == 0x300 {
Some('\u{1F6B}')
} else {
None
}
} else {
if b == 0x301 {
Some('\u{1F6D}')
} else {
None
}
}
} else {
if b < 0x345 {
if b == 0x342 {
Some('\u{1F6F}')
} else {
None
}
} else {
if b == 0x345 {
Some('\u{1FA9}')
} else {
None
}
}
}
} else {
None
}
}
}
}
} else {
if a < 0x1F6D {
if a < 0x1F6B {
if a == 0x1F6A {
if b == 0x345 {
Some('\u{1FAA}')
} else {
None
}
} else {
None
}
} else {
if a < 0x1F6C {
if a == 0x1F6B {
if b == 0x345 {
Some('\u{1FAB}')
} else {
None
}
} else {
None
}
} else {
if a == 0x1F6C {
if b == 0x345 {
Some('\u{1FAC}')
} else {
None
}
} else {
None
}
}
}
} else {
if a < 0x1F6E {
if a == 0x1F6D {
if b == 0x345 {
Some('\u{1FAD}')
} else {
None
}
} else {
None
}
} else {
if a < 0x1F6F {
if a == 0x1F6E {
if b == 0x345 {
Some('\u{1FAE}')
} else {
None
}
} else {
None
}
} else {
if a == 0x1F6F {
if b == 0x345 {
Some('\u{1FAF}')
} else {
None
}
} else {
None
}
}
}
}
}
} else {
if a < 0x1FF6 {
if a < 0x1FB6 {
if a < 0x1F74 {
if a == 0x1F70 {
if b == 0x345 {
Some('\u{1FB2}')
} else {
None
}
} else {
None
}
} else {
if a < 0x1F7C {
if a == 0x1F74 {
if b == 0x345 {
Some('\u{1FC2}')
} else {
None
}
} else {
None
}
} else {
if a == 0x1F7C {
if b == 0x345 {
Some('\u{1FF2}')
} else {
None
}
} else {
None
}
}
}
} else {
if a < 0x1FBF {
if a == 0x1FB6 {
if b == 0x345 {
Some('\u{1FB7}')
} else {
None
}
} else {
None
}
} else {
if a < 0x1FC6 {
if a == 0x1FBF {
if b < 0x301 {
if b == 0x300 {
Some('\u{1FCD}')
} else {
None
}
} else {
if b < 0x342 {
if b == 0x301 {
Some('\u{1FCE}')
} else {
None
}
} else {
if b == 0x342 {
Some('\u{1FCF}')
} else {
None
}
}
}
} else {
None
}
} else {
if a == 0x1FC6 {
if b == 0x345 {
Some('\u{1FC7}')
} else {
None
}
} else {
None
}
}
}
}
} else {
if a < 0x2192 {
if a < 0x1FFE {
if a == 0x1FF6 {
if b == 0x345 {
Some('\u{1FF7}')
} else {
None
}
} else {
None
}
} else {
if a < 0x2190 {
if a == 0x1FFE {
if b < 0x301 {
if b == 0x300 {
Some('\u{1FDD}')
} else {
None
}
} else {
if b < 0x342 {
if b == 0x301 {
Some('\u{1FDE}')
} else {
None
}
} else {
if b == 0x342 {
Some('\u{1FDF}')
} else {
None
}
}
}
} else {
None
}
} else {
if a == 0x2190 {
if b == 0x338 {
Some('\u{219A}')
} else {
None
}
} else {
None
}
}
}
} else {
if a < 0x2194 {
if a == 0x2192 {
if b == 0x338 {
Some('\u{219B}')
} else {
None
}
} else {
None
}
} else {
if a < 0x21D0 {
if a == 0x2194 {
if b == 0x338 {
Some('\u{21AE}')
} else {
None
}
} else {
None
}
} else {
if a == 0x21D0 {
if b == 0x338 {
Some('\u{21CD}')
} else {
None
}
} else {
None
}
}
}
}
}
}
}
}
} else {
if a < 0x305D {
if a < 0x2282 {
if a < 0x224D {
if a < 0x2223 {
if a < 0x2203 {
if a < 0x21D4 {
if a == 0x21D2 {
if b == 0x338 {
Some('\u{21CF}')
} else {
None
}
} else {
None
}
} else {
if a == 0x21D4 {
if b == 0x338 {
Some('\u{21CE}')
} else {
None
}
} else {
None
}
}
} else {
if a < 0x2208 {
if a == 0x2203 {
if b == 0x338 {
Some('\u{2204}')
} else {
None
}
} else {
None
}
} else {
if a < 0x220B {
if a == 0x2208 {
if b == 0x338 {
Some('\u{2209}')
} else {
None
}
} else {
None
}
} else {
if a == 0x220B {
if b == 0x338 {
Some('\u{220C}')
} else {
None
}
} else {
None
}
}
}
}
} else {
if a < 0x2243 {
if a < 0x2225 {
if a == 0x2223 {
if b == 0x338 {
Some('\u{2224}')
} else {
None
}
} else {
None
}
} else {
if a < 0x223C {
if a == 0x2225 {
if b == 0x338 {
Some('\u{2226}')
} else {
None
}
} else {
None
}
} else {
if a == 0x223C {
if b == 0x338 {
Some('\u{2241}')
} else {
None
}
} else {
None
}
}
}
} else {
if a < 0x2245 {
if a == 0x2243 {
if b == 0x338 {
Some('\u{2244}')
} else {
None
}
} else {
None
}
} else {
if a < 0x2248 {
if a == 0x2245 {
if b == 0x338 {
Some('\u{2247}')
} else {
None
}
} else {
None
}
} else {
if a == 0x2248 {
if b == 0x338 {
Some('\u{2249}')
} else {
None
}
} else {
None
}
}
}
}
}
} else {
if a < 0x2276 {
if a < 0x2265 {
if a < 0x2261 {
if a == 0x224D {
if b == 0x338 {
Some('\u{226D}')
} else {
None
}
} else {
None
}
} else {
if a < 0x2264 {
if a == 0x2261 {
if b == 0x338 {
Some('\u{2262}')
} else {
None
}
} else {
None
}
} else {
if a == 0x2264 {
if b == 0x338 {
Some('\u{2270}')
} else {
None
}
} else {
None
}
}
}
} else {
if a < 0x2272 {
if a == 0x2265 {
if b == 0x338 {
Some('\u{2271}')
} else {
None
}
} else {
None
}
} else {
if a < 0x2273 {
if a == 0x2272 {
if b == 0x338 {
Some('\u{2274}')
} else {
None
}
} else {
None
}
} else {
if a == 0x2273 {
if b == 0x338 {
Some('\u{2275}')
} else {
None
}
} else {
None
}
}
}
}
} else {
if a < 0x227B {
if a < 0x2277 {
if a == 0x2276 {
if b == 0x338 {
Some('\u{2278}')
} else {
None
}
} else {
None
}
} else {
if a < 0x227A {
if a == 0x2277 {
if b == 0x338 {
Some('\u{2279}')
} else {
None
}
} else {
None
}
} else {
if a == 0x227A {
if b == 0x338 {
Some('\u{2280}')
} else {
None
}
} else {
None
}
}
}
} else {
if a < 0x227C {
if a == 0x227B {
if b == 0x338 {
Some('\u{2281}')
} else {
None
}
} else {
None
}
} else {
if a < 0x227D {
if a == 0x227C {
if b == 0x338 {
Some('\u{22E0}')
} else {
None
}
} else {
None
}
} else {
if a == 0x227D {
if b == 0x338 {
Some('\u{22E1}')
} else {
None
}
} else {
None
}
}
}
}
}
}
} else {
if a < 0x22B4 {
if a < 0x22A2 {
if a < 0x2287 {
if a < 0x2283 {
if a == 0x2282 {
if b == 0x338 {
Some('\u{2284}')
} else {
None
}
} else {
None
}
} else {
if a < 0x2286 {
if a == 0x2283 {
if b == 0x338 {
Some('\u{2285}')
} else {
None
}
} else {
None
}
} else {
if a == 0x2286 {
if b == 0x338 {
Some('\u{2288}')
} else {
None
}
} else {
None
}
}
}
} else {
if a < 0x2291 {
if a == 0x2287 {
if b == 0x338 {
Some('\u{2289}')
} else {
None
}
} else {
None
}
} else {
if a < 0x2292 {
if a == 0x2291 {
if b == 0x338 {
Some('\u{22E2}')
} else {
None
}
} else {
None
}
} else {
if a == 0x2292 {
if b == 0x338 {
Some('\u{22E3}')
} else {
None
}
} else {
None
}
}
}
}
} else {
if a < 0x22AB {
if a < 0x22A8 {
if a == 0x22A2 {
if b == 0x338 {
Some('\u{22AC}')
} else {
None
}
} else {
None
}
} else {
if a < 0x22A9 {
if a == 0x22A8 {
if b == 0x338 {
Some('\u{22AD}')
} else {
None
}
} else {
None
}
} else {
if a == 0x22A9 {
if b == 0x338 {
Some('\u{22AE}')
} else {
None
}
} else {
None
}
}
}
} else {
if a < 0x22B2 {
if a == 0x22AB {
if b == 0x338 {
Some('\u{22AF}')
} else {
None
}
} else {
None
}
} else {
if a < 0x22B3 {
if a == 0x22B2 {
if b == 0x338 {
Some('\u{22EA}')
} else {
None
}
} else {
None
}
} else {
if a == 0x22B3 {
if b == 0x338 {
Some('\u{22EB}')
} else {
None
}
} else {
None
}
}
}
}
}
} else {
if a < 0x3051 {
if a < 0x304B {
if a < 0x22B5 {
if a == 0x22B4 {
if b == 0x338 {
Some('\u{22EC}')
} else {
None
}
} else {
None
}
} else {
if a < 0x3046 {
if a == 0x22B5 {
if b == 0x338 {
Some('\u{22ED}')
} else {
None
}
} else {
None
}
} else {
if a == 0x3046 {
if b == 0x3099 {
Some('\u{3094}')
} else {
None
}
} else {
None
}
}
}
} else {
if a < 0x304D {
if a == 0x304B {
if b == 0x3099 {
Some('\u{304C}')
} else {
None
}
} else {
None
}
} else {
if a < 0x304F {
if a == 0x304D {
if b == 0x3099 {
Some('\u{304E}')
} else {
None
}
} else {
None
}
} else {
if a == 0x304F {
if b == 0x3099 {
Some('\u{3050}')
} else {
None
}
} else {
None
}
}
}
}
} else {
if a < 0x3057 {
if a < 0x3053 {
if a == 0x3051 {
if b == 0x3099 {
Some('\u{3052}')
} else {
None
}
} else {
None
}
} else {
if a < 0x3055 {
if a == 0x3053 {
if b == 0x3099 {
Some('\u{3054}')
} else {
None
}
} else {
None
}
} else {
if a == 0x3055 {
if b == 0x3099 {
Some('\u{3056}')
} else {
None
}
} else {
None
}
}
}
} else {
if a < 0x3059 {
if a == 0x3057 {
if b == 0x3099 {
Some('\u{3058}')
} else {
None
}
} else {
None
}
} else {
if a < 0x305B {
if a == 0x3059 {
if b == 0x3099 {
Some('\u{305A}')
} else {
None
}
} else {
None
}
} else {
if a == 0x305B {
if b == 0x3099 {
Some('\u{305C}')
} else {
None
}
} else {
None
}
}
}
}
}
}
}
} else {
if a < 0x30C1 {
if a < 0x30A6 {
if a < 0x306F {
if a < 0x3064 {
if a < 0x305F {
if a == 0x305D {
if b == 0x3099 {
Some('\u{305E}')
} else {
None
}
} else {
None
}
} else {
if a < 0x3061 {
if a == 0x305F {
if b == 0x3099 {
Some('\u{3060}')
} else {
None
}
} else {
None
}
} else {
if a == 0x3061 {
if b == 0x3099 {
Some('\u{3062}')
} else {
None
}
} else {
None
}
}
}
} else {
if a < 0x3066 {
if a == 0x3064 {
if b == 0x3099 {
Some('\u{3065}')
} else {
None
}
} else {
None
}
} else {
if a < 0x3068 {
if a == 0x3066 {
if b == 0x3099 {
Some('\u{3067}')
} else {
None
}
} else {
None
}
} else {
if a == 0x3068 {
if b == 0x3099 {
Some('\u{3069}')
} else {
None
}
} else {
None
}
}
}
}
} else {
if a < 0x3078 {
if a < 0x3072 {
if a == 0x306F {
if b < 0x309A {
if b == 0x3099 {
Some('\u{3070}')
} else {
None
}
} else {
if b == 0x309A {
Some('\u{3071}')
} else {
None
}
}
} else {
None
}
} else {
if a < 0x3075 {
if a == 0x3072 {
if b < 0x309A {
if b == 0x3099 {
Some('\u{3073}')
} else {
None
}
} else {
if b == 0x309A {
Some('\u{3074}')
} else {
None
}
}
} else {
None
}
} else {
if a == 0x3075 {
if b < 0x309A {
if b == 0x3099 {
Some('\u{3076}')
} else {
None
}
} else {
if b == 0x309A {
Some('\u{3077}')
} else {
None
}
}
} else {
None
}
}
}
} else {
if a < 0x307B {
if a == 0x3078 {
if b < 0x309A {
if b == 0x3099 {
Some('\u{3079}')
} else {
None
}
} else {
if b == 0x309A {
Some('\u{307A}')
} else {
None
}
}
} else {
None
}
} else {
if a < 0x309D {
if a == 0x307B {
if b < 0x309A {
if b == 0x3099 {
Some('\u{307C}')
} else {
None
}
} else {
if b == 0x309A {
Some('\u{307D}')
} else {
None
}
}
} else {
None
}
} else {
if a == 0x309D {
if b == 0x3099 {
Some('\u{309E}')
} else {
None
}
} else {
None
}
}
}
}
}
} else {
if a < 0x30B5 {
if a < 0x30AF {
if a < 0x30AB {
if a == 0x30A6 {
if b == 0x3099 {
Some('\u{30F4}')
} else {
None
}
} else {
None
}
} else {
if a < 0x30AD {
if a == 0x30AB {
if b == 0x3099 {
Some('\u{30AC}')
} else {
None
}
} else {
None
}
} else {
if a == 0x30AD {
if b == 0x3099 {
Some('\u{30AE}')
} else {
None
}
} else {
None
}
}
}
} else {
if a < 0x30B1 {
if a == 0x30AF {
if b == 0x3099 {
Some('\u{30B0}')
} else {
None
}
} else {
None
}
} else {
if a < 0x30B3 {
if a == 0x30B1 {
if b == 0x3099 {
Some('\u{30B2}')
} else {
None
}
} else {
None
}
} else {
if a == 0x30B3 {
if b == 0x3099 {
Some('\u{30B4}')
} else {
None
}
} else {
None
}
}
}
}
} else {
if a < 0x30BB {
if a < 0x30B7 {
if a == 0x30B5 {
if b == 0x3099 {
Some('\u{30B6}')
} else {
None
}
} else {
None
}
} else {
if a < 0x30B9 {
if a == 0x30B7 {
if b == 0x3099 {
Some('\u{30B8}')
} else {
None
}
} else {
None
}
} else {
if a == 0x30B9 {
if b == 0x3099 {
Some('\u{30BA}')
} else {
None
}
} else {
None
}
}
}
} else {
if a < 0x30BD {
if a == 0x30BB {
if b == 0x3099 {
Some('\u{30BC}')
} else {
None
}
} else {
None
}
} else {
if a < 0x30BF {
if a == 0x30BD {
if b == 0x3099 {
Some('\u{30BE}')
} else {
None
}
} else {
None
}
} else {
if a == 0x30BF {
if b == 0x3099 {
Some('\u{30C0}')
} else {
None
}
} else {
None
}
}
}
}
}
}
} else {
if a < 0x30F2 {
if a < 0x30D5 {
if a < 0x30C8 {
if a < 0x30C4 {
if a == 0x30C1 {
if b == 0x3099 {
Some('\u{30C2}')
} else {
None
}
} else {
None
}
} else {
if a < 0x30C6 {
if a == 0x30C4 {
if b == 0x3099 {
Some('\u{30C5}')
} else {
None
}
} else {
None
}
} else {
if a == 0x30C6 {
if b == 0x3099 {
Some('\u{30C7}')
} else {
None
}
} else {
None
}
}
}
} else {
if a < 0x30CF {
if a == 0x30C8 {
if b == 0x3099 {
Some('\u{30C9}')
} else {
None
}
} else {
None
}
} else {
if a < 0x30D2 {
if a == 0x30CF {
if b < 0x309A {
if b == 0x3099 {
Some('\u{30D0}')
} else {
None
}
} else {
if b == 0x309A {
Some('\u{30D1}')
} else {
None
}
}
} else {
None
}
} else {
if a == 0x30D2 {
if b < 0x309A {
if b == 0x3099 {
Some('\u{30D3}')
} else {
None
}
} else {
if b == 0x309A {
Some('\u{30D4}')
} else {
None
}
}
} else {
None
}
}
}
}
} else {
if a < 0x30EF {
if a < 0x30D8 {
if a == 0x30D5 {
if b < 0x309A {
if b == 0x3099 {
Some('\u{30D6}')
} else {
None
}
} else {
if b == 0x309A {
Some('\u{30D7}')
} else {
None
}
}
} else {
None
}
} else {
if a < 0x30DB {
if a == 0x30D8 {
if b < 0x309A {
if b == 0x3099 {
Some('\u{30D9}')
} else {
None
}
} else {
if b == 0x309A {
Some('\u{30DA}')
} else {
None
}
}
} else {
None
}
} else {
if a == 0x30DB {
if b < 0x309A {
if b == 0x3099 {
Some('\u{30DC}')
} else {
None
}
} else {
if b == 0x309A {
Some('\u{30DD}')
} else {
None
}
}
} else {
None
}
}
}
} else {
if a < 0x30F0 {
if a == 0x30EF {
if b == 0x3099 {
Some('\u{30F7}')
} else {
None
}
} else {
None
}
} else {
if a < 0x30F1 {
if a == 0x30F0 {
if b == 0x3099 {
Some('\u{30F8}')
} else {
None
}
} else {
None
}
} else {
if a == 0x30F1 {
if b == 0x3099 {
Some('\u{30F9}')
} else {
None
}
} else {
None
}
}
}
}
}
} else {
if a < 0x11132 {
if a < 0x1109B {
if a < 0x30FD {
if a == 0x30F2 {
if b == 0x3099 {
Some('\u{30FA}')
} else {
None
}
} else {
None
}
} else {
if a < 0x11099 {
if a == 0x30FD {
if b == 0x3099 {
Some('\u{30FE}')
} else {
None
}
} else {
None
}
} else {
if a == 0x11099 {
if b == 0x110BA {
Some('\u{1109A}')
} else {
None
}
} else {
None
}
}
}
} else {
if a < 0x110A5 {
if a == 0x1109B {
if b == 0x110BA {
Some('\u{1109C}')
} else {
None
}
} else {
None
}
} else {
if a < 0x11131 {
if a == 0x110A5 {
if b == 0x110BA {
Some('\u{110AB}')
} else {
None
}
} else {
None
}
} else {
if a == 0x11131 {
if b == 0x11127 {
Some('\u{1112E}')
} else {
None
}
} else {
None
}
}
}
}
} else {
if a < 0x115B8 {
if a < 0x11347 {
if a == 0x11132 {
if b == 0x11127 {
Some('\u{1112F}')
} else {
None
}
} else {
None
}
} else {
if a < 0x114B9 {
if a == 0x11347 {
if b < 0x11357 {
if b == 0x1133E {
Some('\u{1134B}')
} else {
None
}
} else {
if b == 0x11357 {
Some('\u{1134C}')
} else {
None
}
}
} else {
None
}
} else {
if a == 0x114B9 {
if b < 0x114BA {
if b == 0x114B0 {
Some('\u{114BC}')
} else {
None
}
} else {
if b < 0x114BD {
if b == 0x114BA {
Some('\u{114BB}')
} else {
None
}
} else {
if b == 0x114BD {
Some('\u{114BE}')
} else {
None
}
}
}
} else {
None
}
}
}
} else {
if a < 0x115B9 {
if a == 0x115B8 {
if b == 0x115AF {
Some('\u{115BA}')
} else {
None
}
} else {
None
}
} else {
if a < 0x11935 {
if a == 0x115B9 {
if b == 0x115AF {
Some('\u{115BB}')
} else {
None
}
} else {
None
}
} else {
if a == 0x11935 {
if b == 0x11930 {
Some('\u{11938}')
} else {
None
}
} else {
None
}
}
}
}
}
}
}
}
}
}
}

/// The primary composite of `a` followed by `b` (see `primary_composite`).
pub fn primary_composite_of(a: u32, b: u32) -> (r: Option<char>)
    ensures
        r == primary_composite(a, b),
{
if a < 0x1B0D {
if a < 0x1A1 {
if a < 0x75 {
if a < 0x56 {
if a < 0x49 {
if a < 0x43 {
if a < 0x3E {
if a < 0x3D {
if a == 0x3C {
if b == 0x338 {
Some('\u{226E}')
} else {
None
}
} else {
None
}
} else {
if a == 0x3D {
if b == 0x338 {
Some('\u{2260}')
} else {
None
}
} else {
None
}
}
} else {
if a < 0x41 {
if a == 0x3E {
if b == 0x338 {
Some('\u{226F}')
} else {
None
}
} else {
None
}
} else {
if a < 0x42 {
if a == 0x41 {
if b < 0x309 {
if b < 0x304 {
if b < 0x302 {
if b < 0x301 {
if b == 0x300 {
Some('\u{C0}')
} else {
None
}
} else {
if b == 0x301 {
Some('\u{C1}')
} else {
None
}
}
} else {
if b < 0x303 {
if b == 0x302 {
Some('\u{C2}')
} else {
None
}
} else {
if b == 0x303 {
Some('\u{C3}')
} else {
None
}
}
}
} else {
if b < 0x307 {
if b < 0x306 {
if b == 0x304 {
Some('\u{100}')
} else {
None
}
} else {
if b == 0x306 {
Some('\u{102}')
} else {
None
}
}
} else {
if b < 0x308 {
if b == 0x307 {
Some('\u{226}')
} else {
None
}
} else {
if b == 0x308 {
Some('\u{C4}')
} else {
None
}
}
}
}
} else {
if b < 0x311 {
if b < 0x30C {
if b < 0x30A {
if b == 0x309 {
Some('\u{1EA2}')
} else {
None
}
} else {
if b == 0x30A {
Some('\u{C5}')
} else {
None
}
}
} else {
if b < 0x30F {
if b == 0x30C {
Some('\u{1CD}')
} else {
None
}
} else {
if b == 0x30F {
Some('\u{200}')
} else {
None
}
}
}
} else {
if b < 0x325 {
if b < 0x323 {
if b == 0x311 {
Some('\u{202}')
} else {
None
}
} else {
if b == 0x323 {
Some('\u{1EA0}')
} else {
None
}
}
} else {
if b < 0x328 {
if b == 0x325 {
Some('\u{1E00}')
} else {
None
}
} else {
if b == 0x328 {
Some('\u{104}')
} else {
None
}
}
}
}
}
} else {
None
}
} else {
if a == 0x42 {
if b < 0x323 {
if b == 0x307 {
Some('\u{1E02}')
} else {
None
}
} else {
if b < 0x331 {
if b == 0x323 {
Some('\u{1E04}')
} else {
None
}
} else {
if b == 0x331 {
Some('\u{1E06}')
} else {
None
}
}
}
} else {
None
}
}
}
}
} else {
if a < 0x46 {
if a < 0x44 {
if a == 0x43 {
if b < 0x307 {
if b < 0x302 {
if b == 0x301 {
Some('\u{106}')
} else {
None
}
} else {
if b == 0x302 {
Some('\u{108}')
} else {
None
}
}
} else {
if b < 0x30C {
if b == 0x307 {
Some('\u{10A}')
} else {
None
}
} else {
if b < 0x327 {
if b == 0x30C {
Some('\u{10C}')
} else {
None
}
} else {
if b == 0x327 {
Some('\u{C7}')
} else {
None
}
}
}
}
} else {
None
}
} else {
if a < 0x45 {
if a == 0x44 {
if b < 0x327 {
if b < 0x30C {
if b == 0x307 {
Some('\u{1E0A}')
} else {
None
}
} else {
if b < 0x323 {
if b == 0x30C {
Some('\u{10E}')
} else {
None
}
} else {
if b == 0x323 {
Some('\u{1E0C}')
} else {
None
}
}
}
} else {
if b < 0x32D {
if b == 0x327 {
Some('\u{1E10}')
} else {
None
}
} else {
if b < 0x331 {
if b == 0x32D {
Some('\u{1E12}')
} else {
None
}
} else {
if b == 0x331 {
Some('\u{1E0E}')
} else {
None
}
}
}
}
} else {
None
}
} else {
if a == 0x45 {
if b < 0x309 {
if b < 0x304 {
if b < 0x302 {
if b < 0x301 {
if b == 0x300 {
Some('\u{C8}')
} else {
None
}
} else {
if b == 0x301 {
Some('\u{C9}')
} else {
None
}
}
} else {
if b < 0x303 {
if b == 0x302 {
Some('\u{CA}')
} else {
None
}
} else {
if b == 0x303 {
Some('\u{1EBC}')
} else {
None
}
}
}
} else {
if b < 0x307 {
if b < 0x306 {
if b == 0x304 {
Some('\u{112}')
} else {
None
}
} else {
if b == 0x306 {
Some('\u{114}')
} else {
None
}
}
} else {
if b < 0x308 {
if b == 0x307 {
Some('\u{116}')
} else {
None
}
} else {
if b == 0x308 {
Some('\u{CB}')
} else {
None
}
}
}
}
} else {
if b < 0x323 {
if b < 0x30F {
if b < 0x30C {
if b == 0x309 {
Some('\u{1EBA}')
} else {
None
}
} else {
if b == 0x30C {
Some('\u{11A}')
} else {
None
}
}
} else {
if b < 0x311 {
if b == 0x30F {
Some('\u{204}')
} else {
None
}
} else {
if b == 0x311 {
Some('\u{206}')
} else {
None
}
}
}
} else {
if b < 0x328 {
if b < 0x327 {
if b == 0x323 {
Some('\u{1EB8}')
} else {
None
}
} else {
if b == 0x327 {
Some('\u{228}')
} else {
None
}
}
} else {
if b < 0x32D {
if b == 0x328 {
Some('\u{118}')
} else {
None
}
} else {
if b < 0x330 {
if b == 0x32D {
Some('\u{1E18}')
} else {
None
}
} else {
if b == 0x330 {
Some('\u{1E1A}')
} else {
None
}
}
}
}
}
}
} else {
None
}
}
}
} else {
if a < 0x47 {
if a == 0x46 {
if b == 0x307 {
Some('\u{1E1E}')
} else {
None
}
} else {
None
}
} else {
if a < 0x48 {
if a == 0x47 {
if b < 0x306 {
if b < 0x302 {
if b == 0x301 {
Some('\u{1F4}')
} else {
None
}
} else {
if b < 0x304 {
if b == 0x302 {
Some('\u{11C}')
} else {
None
}
} else {
if b == 0x304 {
Some('\u{1E20}')
} else {
None
}
}
}
} else {
if b < 0x30C {
if b < 0x307 {
if b == 0x306 {
Some('\u{11E}')
} else {
None
}
} else {
if b == 0x307 {
Some('\u{120}')
} else {
None
}
}
} else {
if b < 0x327 {
if b == 0x30C {
Some('\u{1E6}')
} else {
None
}
} else {
if b == 0x327 {
Some('\u{122}')
} else {
None
}
}
}
}
} else {
None
}
} else {
if a == 0x48 {
if b < 0x30C {
if b < 0x307 {
if b == 0x302 {
Some('\u{124}')
} else {
None
}
} else {
if b < 0x308 {
if b == 0x307 {
Some('\u{1E22}')
} else {
None
}
} else {
if b == 0x308 {
Some('\u{1E26}')
} else {
None
}
}
}
} else {
if b < 0x327 {
if b < 0x323 {
if b == 0x30C {
Some('\u{21E}')
} else {
None
}
} else {
if b == 0x323 {
Some('\u{1E24}')
} else {
None
}
}
} else {
if b < 0x32E {
if b == 0x327 {
Some('\u{1E28}')
} else {
None
}
} else {
if b == 0x32E {
Some('\u{1E2A}')
} else {
None
}
}
}
}
} else {
None
}
}
}
}
}
} else {
if a < 0x4F {
if a < 0x4C {
if a < 0x4A {
if a == 0x49 {
if b < 0x308 {
if b < 0x303 {
if b < 0x301 {
if b == 0x300 {
Some('\u{CC}')
} else {
None
}
} else {
if b < 0x302 {
if b == 0x301 {
Some('\u{CD}')
} else {
None
}
} else {
if b == 0x302 {
Some('\u{CE}')
} else {
None
}
}
}
} else {
if b < 0x306 {
if b < 0x304 {
if b == 0x303 {
Some('\u{128}')
} else {
None
}
} else {
if b == 0x304 {
Some('\u{12A}')
} else {
None
}
}
} else {
if b < 0x307 {
if b == 0x306 {
Some('\u{12C}')
} else {
None
}
} else {
if b == 0x307 {
Some('\u{130}')
} else {
None
}
}
}
}
} else {
if b < 0x311 {
if b < 0x30C {
if b < 0x309 {
if b == 0x308 {
Some('\u{CF}')
} else {
None
}
} else {
if b == 0x309 {
Some('\u{1EC8}')
} else {
None
}
}
} else {
if b < 0x30F {
if b == 0x30C {
Some('\u{1CF}')
} else {
None
}
} else {
if b == 0x30F {
Some('\u{208}')
} else {
None
}
}
}
} else {
if b < 0x328 {
if b < 0x323 {
if b == 0x311 {
Some('\u{20A}')
} else {
None
}
} else {
if b == 0x323 {
Some('\u{1ECA}')
} else {
None
}
}
} else {
if b < 0x330 {
if b == 0x328 {
Some('\u{12E}')
} else {
None
}
} else {
if b == 0x330 {
Some('\u{1E2C}')
} else {
None
}
}
}
}
}
} else {
None
}
} else {
if a < 0x4B {
if a == 0x4A {
if b == 0x302 {
Some('\u{134}')
} else {
None
}
} else {
None
}
} else {
if a == 0x4B {
if b < 0x323 {
if b < 0x30C {
if b == 0x301 {
Some('\u{1E30}')
} else {
None
}
} else {
if b == 0x30C {
Some('\u{1E8}')
} else {
None
}
}
} else {
if b < 0x327 {
if b == 0x323 {
Some('\u{1E32}')
} else {
None
}
} else {
if b < 0x331 {
if b == 0x327 {
Some('\u{136}')
} else {
None
}
} else {
if b == 0x331 {
Some('\u{1E34}')
} else {
None
}
}
}
}
} else {
None
}
}
}
} else {
if a < 0x4D {
if a == 0x4C {
if b < 0x327 {
if b < 0x30C {
if b == 0x301 {
Some('\u{139}')
} else {
None
}
} else {
if b < 0x323 {
if b == 0x30C {
Some('\u{13D}')
} else {
None
}
} else {
if b == 0x323 {
Some('\u{1E36}')
} else {
None
}
}
}
} else {
if b < 0x32D {
if b == 0x327 {
Some('\u{13B}')
} else {
None
}
} else {
if b < 0x331 {
if b == 0x32D {
Some('\u{1E3C}')
} else {
None
}
} else {
if b == 0x331 {
Some('\u{1E3A}')
} else {
None
}
}
}
}
} else {
None
}
} else {
if a < 0x4E {
if a == 0x4D {
if b < 0x307 {
if b == 0x301 {
Some('\u{1E3E}')
} else {
None
}
} else {
if b < 0x323 {
if b == 0x307 {
Some('\u{1E40}')
} else {
None
}
} else {
if b == 0x323 {
Some('\u{1E42}')
} else {
None
}
}
}
} else {
None
}
} else {
if a == 0x4E {
if b < 0x30C {
if b < 0x303 {
if b < 0x301 {
if b == 0x300 {
Some('\u{1F8}')
} else {
None
}
} else {
if b == 0x301 {
Some('\u{143}')
} else {
None
}
}
} else {
if b < 0x307 {
if b == 0x303 {
Some('\u{D1}')
} else {
None
}
} else {
if b == 0x307 {
Some('\u{1E44}')
} else {
None
}
}
}
} else {
if b < 0x327 {
if b < 0x323 {
if b == 0x30C {
Some('\u{147}')
} else {
None
}
} else {
if b == 0x323 {
Some('\u{1E46}')
} else {
None
}
}
} else {
if b < 0x32D {
if b == 0x327 {
Some('\u{145}')
} else {
None
}
} else {
if b < 0x331 {
if b == 0x32D {
Some('\u{1E4A}')
} else {
None
}
} else {
if b == 0x331 {
Some('\u{1E48}')
} else {
None
}
}
}
}
}
} else {
None
}
}
}
}
} else {
if a < 0x53 {
if a < 0x50 {
if a == 0x4F {
if b < 0x309 {
if b < 0x304 {
if b < 0x302 {
if b < 0x301 {
if b == 0x300 {
Some('\u{D2}')
} else {
None
}
} else {
if b == 0x301 {
Some('\u{D3}')
} else {
None
}
}
} else {
if b < 0x303 {
if b == 0x302 {
Some('\u{D4}')
} else {
None
}
} else {
if b == 0x303 {
Some('\u{D5}')
} else {
None
}
}
}
} else {
if b < 0x307 {
if b < 0x306 {
if b == 0x304 {
Some('\u{14C}')
} else {
None
}
} else {
if b == 0x306 {
Some('\u{14E}')
} else {
None
}
}
} else {
if b < 0x308 {
if b == 0x307 {
Some('\u{22E}')
} else {
None
}
} else {
if b == 0x308 {
Some('\u{D6}')
} else {
None
}
}
}
}
} else {
if b < 0x311 {
if b < 0x30C {
if b < 0x30B {
if b == 0x309 {
Some('\u{1ECE}')
} else {
None
}
} else {
if b == 0x30B {
Some('\u{150}')
} else {
None
}
}
} else {
if b < 0x30F {
if b == 0x30C {
Some('\u{1D1}')
} else {
None
}
} else {
if b == 0x30F {
Some('\u{20C}')
} else {
None
}
}
}
} else {
if b < 0x323 {
if b < 0x31B {
if b == 0x311 {
Some('\u{20E}')
} else {
None
}
} else {
if b == 0x31B {
Some('\u{1A0}')
} else {
None
}
}
} else {
if b < 0x328 {
if b == 0x323 {
Some('\u{1ECC}')
} else {
None
}
} else {
if b == 0x328 {
Some('\u{1EA}')
} else {
None
}
}
}
}
}
} else {
None
}
} else {
if a < 0x52 {
if a == 0x50 {
if b < 0x307 {
if b == 0x301 {
Some('\u{1E54}')
} else {
None
}
} else {
if b == 0x307 {
Some('\u{1E56}')
} else {
None
}
}
} else {
None
}
} else {
if a == 0x52 {
if b < 0x311 {
if b < 0x30C {
if b < 0x307 {
if b == 0x301 {
Some('\u{154}')
} else {
None
}
} else {
if b == 0x307 {
Some('\u{1E58}')
} else {
None
}
}
} else {
if b < 0x30F {
if b == 0x30C {
Some('\u{158}')
} else {
None
}
} else {
if b == 0x30F {
Some('\u{210}')
} else {
None
}
}
}
} else {
if b < 0x327 {
if b < 0x323 {
if b == 0x311 {
Some('\u{212}')
} else {
None
}
} else {
if b == 0x323 {
Some('\u{1E5A}')
} else {
None
}
}
} else {
if b < 0x331 {
if b == 0x327 {
Some('\u{156}')
} else {
None
}
} else {
if b == 0x331 {
Some('\u{1E5E}')
} else {
None
}
}
}
}
} else {
None
}
}
}
} else {
if a < 0x54 {
if a == 0x53 {
if b < 0x30C {
if b < 0x302 {
if b == 0x301 {
Some('\u{15A}')
} else {
None
}
} else {
if b < 0x307 {
if b == 0x302 {
Some('\u{15C}')
} else {
None
}
} else {
if b == 0x307 {
Some('\u{1E60}')
} else {
None
}
}
}
} else {
if b < 0x326 {
if b < 0x323 {
if b == 0x30C {
Some('\u{160}')
} else {
None
}
} else {
if b == 0x323 {
Some('\u{1E62}')
} else {
None
}
}
} else {
if b < 0x327 {
if b == 0x326 {
Some('\u{218}')
} else {
None
}
} else {
if b == 0x327 {
Some('\u{15E}')
} else {
None
}
}
}
}
} else {
None
}
} else {
if a < 0x55 {
if a == 0x54 {
if b < 0x326 {
if b < 0x30C {
if b == 0x307 {
Some('\u{1E6A}')
} else {
None
}
} else {
if b < 0x323 {
if b == 0x30C {
Some('\u{164}')
} else {
None
}
} else {
if b == 0x323 {
Some('\u{1E6C}')
} else {
None
}
}
}
} else {
if b < 0x32D {
if b < 0x327 {
if b == 0x326 {
Some('\u{21A}')
} else {
None
}
} else {
if b == 0x327 {
Some('\u{162}')
} else {
None
}
}
} else {
if b < 0x331 {
if b == 0x32D {
Some('\u{1E70}')
} else {
None
}
} else {
if b == 0x331 {
Some('\u{1E6E}')
} else {
None
}
}
}
}
} else {
None
}
} else {
if a == 0x55 {
if b < 0x30B {
if b < 0x304 {
if b < 0x302 {
if b < 0x301 {
if b == 0x300 {
Some('\u{D9}')
} else {
None
}
} else {
if b == 0x301 {
Some('\u{DA}')
} else {
None
}
}
} else {
if b < 0x303 {
if b == 0x302 {
Some('\u{DB}')
} else {
None
}
} else {
if b == 0x303 {
Some('\u{168}')
} else {
None
}
}
}
} else {
if b < 0x308 {
if b < 0x306 {
if b == 0x304 {
Some('\u{16A}')
} else {
None
}
} else {
if b == 0x306 {
Some('\u{16C}')
} else {
None
}
}
} else {
if b < 0x309 {
if b == 0x308 {
Some('\u{DC}')
} else {
None
}
} else {
if b < 0x30A {
if b == 0x309 {
Some('\u{1EE6}')
} else {
None
}
} else {
if b == 0x30A {
Some('\u{16E}')
} else {
None
}
}
}
}
}
} else {
if b < 0x323 {
if b < 0x30F {
if b < 0x30C {
if b == 0x30B {
Some('\u{170}')
} else {
None
}
} else {
if b == 0x30C {
Some('\u{1D3}')
} else {
None
}
}
} else {
if b < 0x311 {
if b == 0x30F {
Some('\u{214}')
} else {
None
}
} else {
if b < 0x31B {
if b == 0x311 {
Some('\u{216}')
} else {
None
}
} else {
if b == 0x31B {
Some('\u{1AF}')
} else {
None
}
}
}
}
} else {
if b < 0x328 {
if b < 0x324 {
if b == 0x323 {
Some('\u{1EE4}')
} else {
None
}
} else {
if b == 0x324 {
Some('\u{1E72}')
} else {
None
}
}
} else {
if b < 0x32D {
if b == 0x328 {
Some('\u{172}')
} else {
None
}
} else {
if b < 0x330 {
if b == 0x32D {
Some('\u{1E76}')
} else {
None
}
} else {
if b == 0x330 {
Some('\u{1E74}')
} else {
None
}
}
}
}
}
}
} else {
None
}
}
}
}
}
}
} else {
if a < 0x68 {
if a < 0x62 {
if a < 0x59 {
if a < 0x57 {
if a == 0x56 {
if b < 0x323 {
if b == 0x303 {
Some('\u{1E7C}')
} else {
None
}
} else {
if b == 0x323 {
Some('\u{1E7E}')
} else {
None
}
}
} else {
None
}
} else {
if a < 0x58 {
if a == 0x57 {
if b < 0x307 {
if b < 0x301 {
if b == 0x300 {
Some('\u{1E80}')
} else {
None
}
} else {
if b < 0x302 {
if b == 0x301 {
Some('\u{1E82}')
} else {
None
}
} else {
if b == 0x302 {
Some('\u{174}')
} else {
None
}
}
}
} else {
if b < 0x308 {
if b == 0x307 {
Some('\u{1E86}')
} else {
None
}
} else {
if b < 0x323 {
if b == 0x308 {
Some('\u{1E84}')
} else {
None
}
} else {
if b == 0x323 {
Some('\u{1E88}')
} else {
None
}
}
}
}
} else {
None
}
} else {
if a == 0x58 {
if b < 0x308 {
if b == 0x307 {
Some('\u{1E8A}')
} else {
None
}
} else {
if b == 0x308 {
Some('\u{1E8C}')
} else {
None
}
}
} else {
None
}
}
}
} else {
if a < 0x5A {
if a == 0x59 {
if b < 0x304 {
if b < 0x302 {
if b < 0x301 {
if b == 0x300 {
Some('\u{1EF2}')
} else {
None
}
} else {
if b == 0x301 {
Some('\u{DD}')
} else {
None
}
}
} else {
if b < 0x303 {
if b == 0x302 {
Some('\u{176}')
} else {
None
}
} else {
if b == 0x303 {
Some('\u{1EF8}')
} else {
None
}
}
}
} else {
if b < 0x308 {
if b < 0x307 {
if b == 0x304 {
Some('\u{232}')
} else {
None
}
} else {
if b == 0x307 {
Some('\u{1E8E}')
} else {
None
}
}
} else {
if b < 0x309 {
if b == 0x308 {
Some('\u{178}')
} else {
None
}
} else {
if b < 0x323 {
if b == 0x309 {
Some('\u{1EF6}')
} else {
None
}
} else {
if b == 0x323 {
Some('\u{1EF4}')
} else {
None
}
}
}
}
}
} else {
None
}
} else {
if a < 0x61 {
if a == 0x5A {
if b < 0x30C {
if b < 0x302 {
if b == 0x301 {
Some('\u{179}')
} else {
None
}
} else {
if b < 0x307 {
if b == 0x302 {
Some('\u{1E90}')
} else {
None
}
} else {
if b == 0x307 {
Some('\u{17B}')
} else {
None
}
}
}
} else {
if b < 0x323 {
if b == 0x30C {
Some('\u{17D}')
} else {
None
}
} else {
if b < 0x331 {
if b == 0x323 {
Some('\u{1E92}')
} else {
None
}
} else {
if b == 0x331 {
Some('\u{1E94}')
} else {
None
}
}
}
}
} else {
None
}
} else {
if a == 0x61 {
if b < 0x309 {
if b < 0x304 {
if b < 0x302 {
if b < 0x301 {
if b == 0x300 {
Some('\u{E0}')
} else {
None
}
} else {
if b == 0x301 {
Some('\u{E1}')
} else {
None
}
}
} else {
if b < 0x303 {
if b == 0x302 {
Some('\u{E2}')
} else {
None
}
} else {
if b == 0x303 {
Some('\u{E3}')
} else {
None
}
}
}
} else {
if b < 0x307 {
if b < 0x306 {
if b == 0x304 {
Some('\u{101}')
} else {
None
}
} else {
if b == 0x306 {
Some('\u{103}')
} else {
None
}
}
} else {
if b < 0x308 {
if b == 0x307 {
Some('\u{227}')
} else {
None
}
} else {
if b == 0x308 {
Some('\u{E4}')
} else {
None
}
}
}
}
} else {
if b < 0x311 {
if b < 0x30C {
if b < 0x30A {
if b == 0x309 {
Some('\u{1EA3}')
} else {
None
}
} else {
if b == 0x30A {
Some('\u{E5}')
} else {
None
}
}
} else {
if b < 0x30F {
if b == 0x30C {
Some('\u{1CE}')
} else {
None
}
} else {
if b == 0x30F {
Some('\u{201}')
} else {
None
}
}
}
} else {
if b < 0x325 {
if b < 0x323 {
if b == 0x311 {
Some('\u{203}')
} else {
None
}
} else {
if b == 0x323 {
Some('\u{1EA1}')
} else {
None
}
}
} else {
if b < 0x328 {
if b == 0x325 {
Some('\u{1E01}')
} else {
None
}
} else {
if b == 0x328 {
Some('\u{105}')
} else {
None
}
}
}
}
}
} else {
None
}
}
}
}
} else {
if a < 0x65 {
if a < 0x63 {
if a == 0x62 {
if b < 0x323 {
if b == 0x307 {
Some('\u{1E03}')
} else {
None
}
} else {
if b < 0x331 {
if b == 0x323 {
Some('\u{1E05}')
} else {
None
}
} else {
if b == 0x331 {
Some('\u{1E07}')
} else {
None
}
}
}
} else {
None
}
} else {
if a < 0x64 {
if a == 0x63 {
if b < 0x307 {
if b < 0x302 {
if b == 0x301 {
Some('\u{107}')
} else {
None
}
} else {
if b == 0x302 {
Some('\u{109}')
} else {
None
}
}
} else {
if b < 0x30C {
if b == 0x307 {
Some('\u{10B}')
} else {
None
}
} else {
if b < 0x327 {
if b == 0x30C {
Some('\u{10D}')
} else {
None
}
} else {
if b == 0x327 {
Some('\u{E7}')
} else {
None
}
}
}
}
} else {
None
}
} else {
if a == 0x64 {
if b < 0x327 {
if b < 0x30C {
if b == 0x307 {
Some('\u{1E0B}')
} else {
None
}
} else {
if b < 0x323 {
if b == 0x30C {
Some('\u{10F}')
} else {
None
}
} else {
if b == 0x323 {
Some('\u{1E0D}')
} else {
None
}
}
}
} else {
if b < 0x32D {
if b == 0x327 {
Some('\u{1E11}')
} else {
None
}
} else {
if b < 0x331 {
if b == 0x32D {
Some('\u{1E13}')
} else {
None
}
} else {
if b == 0x331 {
Some('\u{1E0F}')
} else {
None
}
}
}
}
} else {
None
}
}
}
} else {
if a < 0x66 {
if a == 0x65 {
if b < 0x309 {
if b < 0x304 {
if b < 0x302 {
if b < 0x301 {
if b == 0x300 {
Some('\u{E8}')
} else {
None
}
} else {
if b == 0x301 {
Some('\u{E9}')
} else {
None
}
}
} else {
if b < 0x303 {
if b == 0x302 {
Some('\u{EA}')
} else {
None
}
} else {
if b == 0x303 {
Some('\u{1EBD}')
} else {
None
}
}
}
} else {
if b < 0x307 {
if b < 0x306 {
if b == 0x304 {
Some('\u{113}')
} else {
None
}
} else {
if b == 0x306 {
Some('\u{115}')
} else {
None
}
}
} else {
if b < 0x308 {
if b == 0x307 {
Some('\u{117}')
} else {
None
}
} else {
if b == 0x308 {
Some('\u{EB}')
} else {
None
}
}
}
}
} else {
if b < 0x323 {
if b < 0x30F {
if b < 0x30C {
if b == 0x309 {
Some('\u{1EBB}')
} else {
None
}
} else {
if b == 0x30C {
Some('\u{11B}')
} else {
None
}
}
} else {
if b < 0x311 {
if b == 0x30F {
Some('\u{205}')
} else {
None
}
} else {
if b == 0x311 {
Some('\u{207}')
} else {
None
}
}
}
} else {
if b < 0x328 {
if b < 0x327 {
if b == 0x323 {
Some('\u{1EB9}')
} else {
None
}
} else {
if b == 0x327 {
Some('\u{229}')
} else {
None
}
}
} else {
if b < 0x32D {
if b == 0x328 {
Some('\u{119}')
} else {
None
}
} else {
if b < 0x330 {
if b == 0x32D {
Some('\u{1E19}')
} else {
None
}
} else {
if b == 0x330 {
Some('\u{1E1B}')
} else {
None
}
}
}
}
}
}
} else {
None
}
} else {
if a < 0x67 {
if a == 0x66 {
if b == 0x307 {
Some('\u{1E1F}')
} else {
None
}
} else {
None
}
} else {
if a == 0x67 {
if b < 0x306 {
if b < 0x302 {
if b == 0x301 {
Some('\u{1F5}')
} else {
None
}
} else {
if b < 0x304 {
if b == 0x302 {
Some('\u{11D}')
} else {
None
}
} else {
if b == 0x304 {
Some('\u{1E21}')
} else {
None
}
}
}
} else {
if b < 0x30C {
if b < 0x307 {
if b == 0x306 {
Some('\u{11F}')
} else {
None
}
} else {
if b == 0x307 {
Some('\u{121}')
} else {
None
}
}
} else {
if b < 0x327 {
if b == 0x30C {
Some('\u{1E7}')
} else {
None
}
} else {
if b == 0x327 {
Some('\u{123}')
} else {
None
}
}
}
}
} else {
None
}
}
}
}
}
} else {
if a < 0x6E {
if a < 0x6B {
if a < 0x69 {
if a == 0x68 {
if b < 0x323 {
if b < 0x308 {
if b < 0x307 {
if b == 0x302 {
Some('\u{125}')
} else {
None
}
} else {
if b == 0x307 {
Some('\u{1E23}')
} else {
None
}
}
} else {
if b < 0x30C {
if b == 0x308 {
Some('\u{1E27}')
} else {
None
}
} else {
if b == 0x30C {
Some('\u{21F}')
} else {
None
}
}
}
} else {
if b < 0x32E {
if b < 0x327 {
if b == 0x323 {
Some('\u{1E25}')
} else {
None
}
} else {
if b == 0x327 {
Some('\u{1E29}')
} else {
None
}
}
} else {
if b < 0x331 {
if b == 0x32E {
Some('\u{1E2B}')
} else {
None
}
} else {
if b == 0x331 {
Some('\u{1E96}')
} else {
None
}
}
}
}
} else {
None
}
} else {
if a < 0x6A {
if a == 0x69 {
if b < 0x309 {
if b < 0x303 {
if b < 0x301 {
if b == 0x300 {
Some('\u{EC}')
} else {
None
}
} else {
if b < 0x302 {
if b == 0x301 {
Some('\u{ED}')
} else {
None
}
} else {
if b == 0x302 {
Some('\u{EE}')
} else {
None
}
}
}
} else {
if b < 0x306 {
if b < 0x304 {
if b == 0x303 {
Some('\u{129}')
} else {
None
}
} else {
if b == 0x304 {
Some('\u{12B}')
} else {
None
}
}
} else {
if b < 0x308 {
if b == 0x306 {
Some('\u{12D}')
} else {
None
}
} else {
if b == 0x308 {
Some('\u{EF}')
} else {
None
}
}
}
}
} else {
if b < 0x311 {
if b < 0x30C {
if b == 0x309 {
Some('\u{1EC9}')
} else {
None
}
} else {
if b < 0x30F {
if b == 0x30C {
Some('\u{1D0}')
} else {
None
}
} else {
if b == 0x30F {
Some('\u{209}')
} else {
None
}
}
}
} else {
if b < 0x328 {
if b < 0x323 {
if b == 0x311 {
Some('\u{20B}')
} else {
None
}
} else {
if b == 0x323 {
Some('\u{1ECB}')
} else {
None
}
}
} else {
if b < 0x330 {
if b == 0x328 {
Some('\u{12F}')
} else {
None
}
} else {
if b == 0x330 {
Some('\u{1E2D}')
} else {
None
}
}
}
}
}
} else {
None
}
} else {
if a == 0x6A {
if b < 0x30C {
if b == 0x302 {
Some('\u{135}')
} else {
None
}
} else {
if b == 0x30C {
Some('\u{1F0}')
} else {
None
}
}
} else {
None
}
}
}
} else {
if a < 0x6C {
if a == 0x6B {
if b < 0x323 {
if b < 0x30C {
if b == 0x301 {
Some('\u{1E31}')
} else {
None
}
} else {
if b == 0x30C {
Some('\u{1E9}')
} else {
None
}
}
} else {
if b < 0x327 {
if b == 0x323 {
Some('\u{1E33}')
} else {
None
}
} else {
if b < 0x331 {
if b == 0x327 {
Some('\u{137}')
} else {
None
}
} else {
if b == 0x331 {
Some('\u{1E35}')
} else {
None
}
}
}
}
} else {
None
}
} else {
if a < 0x6D {
if a == 0x6C {
if b < 0x327 {
if b < 0x30C {
if b == 0x301 {
Some('\u{13A}')
} else {
None
}
} else {
if b < 0x323 {
if b == 0x30C {
Some('\u{13E}')
} else {
None
}
} else {
if b == 0x323 {
Some('\u{1E37}')
} else {
None
}
}
}
} else {
if b < 0x32D {
if b == 0x327 {
Some('\u{13C}')
} else {
None
}
} else {
if b < 0x331 {
if b == 0x32D {
Some('\u{1E3D}')
} else {
None
}
} else {
if b == 0x331 {
Some('\u{1E3B}')
} else {
None
}
}
}
}
} else {
None
}
} else {
if a == 0x6D {
if b < 0x307 {
if b == 0x301 {
Some('\u{1E3F}')
} else {
None
}
} else {
if b < 0x323 {
if b == 0x307 {
Some('\u{1E41}')
} else {
None
}
} else {
if b == 0x323 {
Some('\u{1E43}')
} else {
None
}
}
}
} else {
None
}
}
}
}
} else {
if a < 0x72 {
if a < 0x6F {
if a == 0x6E {
if b < 0x30C {
if b < 0x303 {
if b < 0x301 {
if b == 0x300 {
Some('\u{1F9}')
} else {
None
}
} else {
if b == 0x301 {
Some('\u{144}')
} else {
None
}
}
} else {
if b < 0x307 {
if b == 0x303 {
Some('\u{F1}')
} else {
None
}
} else {
if b == 0x307 {
Some('\u{1E45}')
} else {
None
}
}
}
} else {
if b < 0x327 {
if b < 0x323 {
if b == 0x30C {
Some('\u{148}')
} else {
None
}
} else {
if b == 0x323 {
Some('\u{1E47}')
} else {
None
}
}
} else {
if b < 0x32D {
if b == 0x327 {
Some('\u{146}')
} else {
None
}
} else {
if b < 0x331 {
if b == 0x32D {
Some('\u{1E4B}')
} else {
None
}
} else {
if b == 0x331 {
Some('\u{1E49}')
} else {
None
}
}
}
}
}
} else {
None
}
} else {
if a < 0x70 {
if a == 0x6F {
if b < 0x309 {
if b < 0x304 {
if b < 0x302 {
if b < 0x301 {
if b == 0x300 {
Some('\u{F2}')
} else {
None
}
} else {
if b == 0x301 {
Some('\u{F3}')
} else {
None
}
}
} else {
if b < 0x303 {
if b == 0x302 {
Some('\u{F4}')
} else {
None
}
} else {
if b == 0x303 {
Some('\u{F5}')
} else {
None
}
}
}
} else {
if b < 0x307 {
if b < 0x306 {
if b == 0x304 {
Some('\u{14D}')
} else {
None
}
} else {
if b == 0x306 {
Some('\u{14F}')
} else {
None
}
}
} else {
if b < 0x308 {
if b == 0x307 {
Some('\u{22F}')
} else {
None
}
} else {
if b == 0x308 {
Some('\u{F6}')
} else {
None
}
}
}
}
} else {
if b < 0x311 {
if b < 0x30C {
if b < 0x30B {
if b == 0x309 {
Some('\u{1ECF}')
} else {
None
}
} else {
if b == 0x30B {
Some('\u{151}')
} else {
None
}
}
} else {
if b < 0x30F {
if b == 0x30C {
Some('\u{1D2}')
} else {
None
}
} else {
if b == 0x30F {
Some('\u{20D}')
} else {
None
}
}
}
} else {
if b < 0x323 {
if b < 0x31B {
if b == 0x311 {
Some('\u{20F}')
} else {
None
}
} else {
if b == 0x31B {
Some('\u{1A1}')
} else {
None
}
}
} else {
if b < 0x328 {
if b == 0x323 {
Some('\u{1ECD}')
} else {
None
}
} else {
if b == 0x328 {
Some('\u{1EB}')
} else {
None
}
}
}
}
}
} else {
None
}
} else {
if a == 0x70 {
if b < 0x307 {
if b == 0x301 {
Some('\u{1E55}')
} else {
None
}
} else {
if b == 0x307 {
Some('\u{1E57}')
} else {
None
}
}
} else {
None
}
}
}
} else {
if a < 0x73 {
if a == 0x72 {
if b < 0x311 {
if b < 0x30C {
if b < 0x307 {
if b == 0x301 {
Some('\u{155}')
} else {
None
}
} else {
if b == 0x307 {
Some('\u{1E59}')
} else {
None
}
}
} else {
if b < 0x30F {
if b == 0x30C {
Some('\u{159}')
} else {
None
}
} else {
if b == 0x30F {
Some('\u{211}')
} else {
None
}
}
}
} else {
if b < 0x327 {
if b < 0x323 {
if b == 0x311 {
Some('\u{213}')
} else {
None
}
} else {
if b == 0x323 {
Some('\u{1E5B}')
} else {
None
}
}
} else {
if b < 0x331 {
if b == 0x327 {
Some('\u{157}')
} else {
None
}
} else {
if b == 0x331 {
Some('\u{1E5F}')
} else {
None
}
}
}
}
} else {
None
}
} else {
if a < 0x74 {
if a == 0x73 {
if b < 0x30C {
if b < 0x302 {
if b == 0x301 {
Some('\u{15B}')
} else {
None
}
} else {
if b < 0x307 {
if b == 0x302 {
Some('\u{15D}')
} else {
None
}
} else {
if b == 0x307 {
Some('\u{1E61}')
} else {
None
}
}
}
} else {
if b < 0x326 {
if b < 0x323 {
if b == 0x30C {
Some('\u{161}')
} else {
None
}
} else {
if b == 0x323 {
Some('\u{1E63}')
} else {
None
}
}
} else {
if b < 0x327 {
if b == 0x326 {
Some('\u{219}')
} else {
None
}
} else {
if b == 0x327 {
Some('\u{15F}')
} else {
None
}
}
}
}
} else {
None
}
} else {
if a == 0x74 {
if b < 0x326 {
if b < 0x30C {
if b < 0x308 {
if b == 0x307 {
Some('\u{1E6B}')
} else {
None
}
} else {
if b == 0x308 {
Some('\u{1E97}')
} else {
None
}
}
} else {
if b < 0x323 {
if b == 0x30C {
Some('\u{165}')
} else {
None
}
} else {
if b == 0x323 {
Some('\u{1E6D}')
} else {
None
}
}
}
} else {
if b < 0x32D {
if b < 0x327 {
if b == 0x326 {
Some('\u{21B}')
} else {
None
}
} else {
if b == 0x327 {
Some('\u{163}')
} else {
None
}
}
} else {
if b < 0x331 {
if b == 0x32D {
Some('\u{1E71}')
} else {
None
}
} else {
if b == 0x331 {
Some('\u{1E6F}')
} else {
None
}
}
}
}
} else {
None
}
}
}
}
}
}
}
} else {
if a < 0xE7 {
if a < 0xC7 {
if a < 0x7A {
if a < 0x77 {
if a < 0x76 {
if a == 0x75 {
if b < 0x30B {
if b < 0x304 {
if b < 0x302 {
if b < 0x301 {
if b == 0x300 {
Some('\u{F9}')
} else {
None
}
} else {
if b == 0x301 {
Some('\u{FA}')
} else {
None
}
}
} else {
if b < 0x303 {
if b == 0x302 {
Some('\u{FB}')
} else {
None
}
} else {
if b == 0x303 {
Some('\u{169}')
} else {
None
}
}
}
} else {
if b < 0x308 {
if b < 0x306 {
if b == 0x304 {
Some('\u{16B}')
} else {
None
}
} else {
if b == 0x306 {
Some('\u{16D}')
} else {
None
}
}
} else {
if b < 0x309 {
if b == 0x308 {
Some('\u{FC}')
} else {
None
}
} else {
if b < 0x30A {
if b == 0x309 {
Some('\u{1EE7}')
} else {
None
}
} else {
if b == 0x30A {
Some('\u{16F}')
} else {
None
}
}
}
}
}
} else {
if b < 0x323 {
if b < 0x30F {
if b < 0x30C {
if b == 0x30B {
Some('\u{171}')
} else {
None
}
} else {
if b == 0x30C {
Some('\u{1D4}')
} else {
None
}
}
} else {
if b < 0x311 {
if b == 0x30F {
Some('\u{215}')
} else {
None
}
} else {
if b < 0x31B {
if b == 0x311 {
Some('\u{217}')
} else {
None
}
} else {
if b == 0x31B {
Some('\u{1B0}')
} else {
None
}
}
}
}
} else {
if b < 0x328 {
if b < 0x324 {
if b == 0x323 {
Some('\u{1EE5}')
} else {
None
}
} else {
if b == 0x324 {
Some('\u{1E73}')
} else {
None
}
}
} else {
if b < 0x32D {
if b == 0x328 {
Some('\u{173}')
} else {
None
}
} else {
if b < 0x330 {
if b == 0x32D {
Some('\u{1E77}')
} else {
None
}
} else {
if b == 0x330 {
Some('\u{1E75}')
} else {
None
}
}
}
}
}
}
} else {
None
}
} else {
if a == 0x76 {
if b < 0x323 {
if b == 0x303 {
Some('\u{1E7D}')
} else {
None
}
} else {
if b == 0x323 {
Some('\u{1E7F}')
} else {
None
}
}
} else {
None
}
}
} else {
if a < 0x78 {
if a == 0x77 {
if b < 0x307 {
if b < 0x301 {
if b == 0x300 {
Some('\u{1E81}')
} else {
None
}
} else {
if b < 0x302 {
if b == 0x301 {
Some('\u{1E83}')
} else {
None
}
} else {
if b == 0x302 {
Some('\u{175}')
} else {
None
}
}
}
} else {
if b < 0x30A {
if b < 0x308 {
if b == 0x307 {
Some('\u{1E87}')
} else {
None
}
} else {
if b == 0x308 {
Some('\u{1E85}')
} else {
None
}
}
} else {
if b < 0x323 {
if b == 0x30A {
Some('\u{1E98}')
} else {
None
}
} else {
if b == 0x323 {
Some('\u{1E89}')
} else {
None
}
}
}
}
} else {
None
}
} else {
if a < 0x79 {
if a == 0x78 {
if b < 0x308 {
if b == 0x307 {
Some('\u{1E8B}')
} else {
None
}
} else {
if b == 0x308 {
Some('\u{1E8D}')
} else {
None
}
}
} else {
None
}
} else {
if a == 0x79 {
if b < 0x307 {
if b < 0x302 {
if b < 0x301 {
if b == 0x300 {
Some('\u{1EF3}')
} else {
None
}
} else {
if b == 0x301 {
Some('\u{FD}')
} else {
None
}
}
} else {
if b < 0x303 {
if b == 0x302 {
Some('\u{177}')
} else {
None
}
} else {
if b < 0x304 {
if b == 0x303 {
Some('\u{1EF9}')
} else {
None
}
} else {
if b == 0x304 {
Some('\u{233}')
} else {
None
}
}
}
}
} else {
if b < 0x309 {
if b < 0x308 {
if b == 0x307 {
Some('\u{1E8F}')
} else {
None
}
} else {
if b == 0x308 {
Some('\u{FF}')
} else {
None
}
}
} else {
if b < 0x30A {
if b == 0x309 {
Some('\u{1EF7}')
} else {
None
}
} else {
if b < 0x323 {
if b == 0x30A {
Some('\u{1E99}')
} else {
None
}
} else {
if b == 0x323 {
Some('\u{1EF5}')
} else {
None
}
}
}
}
}
} else {
None
}
}
}
}
} else {
if a < 0xC4 {
if a < 0xA8 {
if a == 0x7A {
if b < 0x30C {
if b < 0x302 {
if b == 0x301 {
Some('\u{17A}')
} else {
None
}
} else {
if b < 0x307 {
if b == 0x302 {
Some('\u{1E91}')
} else {
None
}
} else {
if b == 0x307 {
Some('\u{17C}')
} else {
None
}
}
}
} else {
if b < 0x323 {
if b == 0x30C {
Some('\u{17E}')
} else {
None
}
} else {
if b < 0x331 {
if b == 0x323 {
Some('\u{1E93}')
} else {
None
}
} else {
if b == 0x331 {
Some('\u{1E95}')
} else {
None
}
}
}
}
} else {
None
}
} else {
if a < 0xC2 {
if a == 0xA8 {
if b < 0x301 {
if b == 0x300 {
Some('\u{1FED}')
} else {
None
}
} else {
if b < 0x342 {
if b == 0x301 {
Some('\u{385}')
} else {
None
}
} else {
if b == 0x342 {
Some('\u{1FC1}')
} else {
None
}
}
}
} else {
None
}
} else {
if a == 0xC2 {
if b < 0x303 {
if b < 0x301 {
if b == 0x300 {
Some('\u{1EA6}')
} else {
None
}
} else {
if b == 0x301 {
Some('\u{1EA4}')
} else {
None
}
}
} else {
if b < 0x309 {
if b == 0x303 {
Some('\u{1EAA}')
} else {
None
}
} else {
if b == 0x309 {
Some('\u{1EA8}')
} else {
None
}
}
}
} else {
None
}
}
}
} else {
if a < 0xC5 {
if a == 0xC4 {
if b == 0x304 {
Some('\u{1DE}')
} else {
None
}
} else {
None
}
} else {
if a < 0xC6 {
if a == 0xC5 {
if b == 0x301 {
Some('\u{1FA}')
} else {
None
}
} else {
None
}
} else {
if a == 0xC6 {
if b < 0x304 {
if b == 0x301 {
Some('\u{1FC}')
} else {
None
}
} else {
if b == 0x304 {
Some('\u{1E2}')
} else {
None
}
}
} else {
None
}
}
}
}
}
} else {
if a < 0xD8 {
if a < 0xD4 {
if a < 0xCA {
if a == 0xC7 {
if b == 0x301 {
Some('\u{1E08}')
} else {
None
}
} else {
None
}
} else {
if a < 0xCF {
if a == 0xCA {
if b < 0x303 {
if b < 0x301 {
if b == 0x300 {
Some('\u{1EC0}')
} else {
None
}
} else {
if b == 0x301 {
Some('\u{1EBE}')
} else {
None
}
}
} else {
if b < 0x309 {
if b == 0x303 {
Some('\u{1EC4}')
} else {
None
}
} else {
if b == 0x309 {
Some('\u{1EC2}')
} else {
None
}
}
}
} else {
None
}
} else {
if a == 0xCF {
if b == 0x301 {
Some('\u{1E2E}')
} else {
None
}
} else {
None
}
}
}
} else {
if a < 0xD5 {
if a == 0xD4 {
if b < 0x303 {
if b < 0x301 {
if b == 0x300 {
Some('\u{1ED2}')
} else {
None
}
} else {
if b == 0x301 {
Some('\u{1ED0}')
} else {
None
}
}
} else {
if b < 0x309 {
if b == 0x303 {
Some('\u{1ED6}')
} else {
None
}
} else {
if b == 0x309 {
Some('\u{1ED4}')
} else {
None
}
}
}
} else {
None
}
} else {
if a < 0xD6 {
if a == 0xD5 {
if b < 0x304 {
if b == 0x301 {
Some('\u{1E4C}')
} else {
None
}
} else {
if b < 0x308 {
if b == 0x304 {
Some('\u{22C}')
} else {
None
}
} else {
if b == 0x308 {
Some('\u{1E4E}')
} else {
None
}
}
}
} else {
None
}
} else {
if a == 0xD6 {
if b == 0x304 {
Some('\u{22A}')
} else {
None
}
} else {
None
}
}
}
}
} else {
if a < 0xE4 {
if a < 0xDC {
if a == 0xD8 {
if b == 0x301 {
Some('\u{1FE}')
} else {
None
}
} else {
None
}
} else {
if a < 0xE2 {
if a == 0xDC {
if b < 0x304 {
if b < 0x301 {
if b == 0x300 {
Some('\u{1DB}')
} else {
None
}
} else {
if b == 0x301 {
Some('\u{1D7}')
} else {
None
}
}
} else {
if b < 0x30C {
if b == 0x304 {
Some('\u{1D5}')
} else {
None
}
} else {
if b == 0x30C {
Some('\u{1D9}')
} else {
None
}
}
}
} else {
None
}
} else {
if a == 0xE2 {
if b < 0x303 {
if b < 0x301 {
if b == 0x300 {
Some('\u{1EA7}')
} else {
None
}
} else {
if b == 0x301 {
Some('\u{1EA5}')
} else {
None
}
}
} else {
if b < 0x309 {
if b == 0x303 {
Some('\u{1EAB}')
} else {
None
}
} else {
if b == 0x309 {
Some('\u{1EA9}')
} else {
None
}
}
}
} else {
None
}
}
}
} else {
if a < 0xE5 {
if a == 0xE4 {
if b == 0x304 {
Some('\u{1DF}')
} else {
None
}
} else {
None
}
} else {
if a < 0xE6 {
if a == 0xE5 {
if b == 0x301 {
Some('\u{1FB}')
} else {
None
}
} else {
None
}
} else {
if a == 0xE6 {
if b < 0x304 {
if b == 0x301 {
Some('\u{1FD}')
} else {
None
}
} else {
if b == 0x304 {
Some('\u{1E3}')
} else {
None
}
}
} else {
None
}
}
}
}
}
}
} else {
if a < 0x14C {
if a < 0xF8 {
if a < 0xF4 {
if a < 0xEA {
if a == 0xE7 {
if b == 0x301 {
Some('\u{1E09}')
} else {
None
}
} else {
None
}
} else {
if a < 0xEF {
if a == 0xEA {
if b < 0x303 {
if b < 0x301 {
if b == 0x300 {
Some('\u{1EC1}')
} else {
None
}
} else {
if b == 0x301 {
Some('\u{1EBF}')
} else {
None
}
}
} else {
if b < 0x309 {
if b == 0x303 {
Some('\u{1EC5}')
} else {
None
}
} else {
if b == 0x309 {
Some('\u{1EC3}')
} else {
None
}
}
}
} else {
None
}
} else {
if a == 0xEF {
if b == 0x301 {
Some('\u{1E2F}')
} else {
None
}
} else {
None
}
}
}
} else {
if a < 0xF5 {
if a == 0xF4 {
if b < 0x303 {
if b < 0x301 {
if b == 0x300 {
Some('\u{1ED3}')
} else {
None
}
} else {
if b == 0x301 {
Some('\u{1ED1}')
} else {
None
}
}
} else {
if b < 0x309 {
if b == 0x303 {
Some('\u{1ED7}')
} else {
None
}
} else {
if b == 0x309 {
Some('\u{1ED5}')
} else {
None
}
}
}
} else {
None
}
} else {
if a < 0xF6 {
if a == 0xF5 {
if b < 0x304 {
if b == 0x301 {
Some('\u{1E4D}')
} else {
None
}
} else {
if b < 0x308 {
if b == 0x304 {
Some('\u{22D}')
} else {
None
}
} else {
if b == 0x308 {
Some('\u{1E4F}')
} else {
None
}
}
}
} else {
None
}
} else {
if a == 0xF6 {
if b == 0x304 {
Some('\u{22B}')
} else {
None
}
} else {
None
}
}
}
}
} else {
if a < 0x103 {
if a < 0xFC {
if a == 0xF8 {
if b == 0x301 {
Some('\u{1FF}')
} else {
None
}
} else {
None
}
} else {
if a < 0x102 {
if a == 0xFC {
if b < 0x304 {
if b < 0x301 {
if b == 0x300 {
Some('\u{1DC}')
} else {
None
}
} else {
if b == 0x301 {
Some('\u{1D8}')
} else {
None
}
}
} else {
if b < 0x30C {
if b == 0x304 {
Some('\u{1D6}')
} else {
None
}
} else {
if b == 0x30C {
Some('\u{1DA}')
} else {
None
}
}
}
} else {
None
}
} else {
if a == 0x102 {
if b < 0x303 {
if b < 0x301 {
if b == 0x300 {
Some('\u{1EB0}')
} else {
None
}
} else {
if b == 0x301 {
Some('\u{1EAE}')
} else {
None
}
}
} else {
if b < 0x309 {
if b == 0x303 {
Some('\u{1EB4}')
} else {
None
}
} else {
if b == 0x309 {
Some('\u{1EB2}')
} else {
None
}
}
}
} else {
None
}
}
}
} else {
if a < 0x112 {
if a == 0x103 {
if b < 0x303 {
if b < 0x301 {
if b == 0x300 {
Some('\u{1EB1}')
} else {
None
}
} else {
if b == 0x301 {
Some('\u{1EAF}')
} else {
None
}
}
} else {
if b < 0x309 {
if b == 0x303 {
Some('\u{1EB5}')
} else {
None
}
} else {
if b == 0x309 {
Some('\u{1EB3}')
} else {
None
}
}
}
} else {
None
}
} else {
if a < 0x113 {
if a == 0x112 {
if b < 0x301 {
if b == 0x300 {
Some('\u{1E14}')
} else {
None
}
} else {
if b == 0x301 {
Some('\u{1E16}')
} else {
None
}
}
} else {
None
}
} else {
if a == 0x113 {
if b < 0x301 {
if b == 0x300 {
Some('\u{1E15}')
} else {
None
}
} else {
if b == 0x301 {
Some('\u{1E17}')
} else {
None
}
}
} else {
None
}
}
}
}
}
} else {
if a < 0x168 {
if a < 0x15B {
if a < 0x14D {
if a == 0x14C {
if b < 0x301 {
if b == 0x300 {
Some('\u{1E50}')
} else {
None
}
} else {
if b == 0x301 {
Some('\u{1E52}')
} else {
None
}
}
} else {
None
}
} else {
if a < 0x15A {
if a == 0x14D {
if b < 0x301 {
if b == 0x300 {
Some('\u{1E51}')
} else {
None
}
} else {
if b == 0x301 {
Some('\u{1E53}')
} else {
None
}
}
} else {
None
}
} else {
if a == 0x15A {
if b == 0x307 {
Some('\u{1E64}')
} else {
None
}
} else {
None
}
}
}
} else {
if a < 0x160 {
if a == 0x15B {
if b == 0x307 {
Some('\u{1E65}')
} else {
None
}
} else {
None
}
} else {
if a < 0x161 {
if a == 0x160 {
if b == 0x307 {
Some('\u{1E66}')
} else {
None
}
} else {
None
}
} else {
if a == 0x161 {
if b == 0x307 {
Some('\u{1E67}')
} else {
None
}
} else {
None
}
}
}
}
} else {
if a < 0x16B {
if a < 0x169 {
if a == 0x168 {
if b == 0x301 {
Some('\u{1E78}')
} else {
None
}
} else {
None
}
} else {
if a < 0x16A {
if a == 0x169 {
if b == 0x301 {
Some('\u{1E79}')
} else {
None
}
} else {
None
}
} else {
if a == 0x16A {
if b == 0x308 {
Some('\u{1E7A}')
} else {
None
}
} else {
None
}
}
}
} else {
if a < 0x17F {
if a == 0x16B {
if b == 0x308 {
Some('\u{1E7B}')
} else {
None
}
} else {
None
}
} else {
if a < 0x1A0 {
if a == 0x17F {
if b == 0x307 {
Some('\u{1E9B}')
} else {
None
}
} else {
None
}
} else {
if a == 0x1A0 {
if b < 0x303 {
if b < 0x301 {
if b == 0x300 {
Some('\u{1EDC}')
} else {
None
}
} else {
if b == 0x301 {
Some('\u{1EDA}')
} else {
None
}
}
} else {
if b < 0x309 {
if b == 0x303 {
Some('\u{1EE0}')
} else {
None
}
} else {
if b < 0x323 {
if b == 0x309 {
Some('\u{1EDE}')
} else {
None
}
} else {
if b == 0x323 {
Some('\u{1EE2}')
} else {
None
}
}
}
}
} else {
None
}
}
}
}
}
}
}
}
} else {
if a < 0x42D {
if a < 0x3B1 {
if a < 0x22F {
if a < 0x1EB {
if a < 0x1B0 {
if a < 0x1AF {
if a == 0x1A1 {
if b < 0x303 {
if b < 0x301 {
if b == 0x300 {
Some('\u{1EDD}')
} else {
None
}
} else {
if b == 0x301 {
Some('\u{1EDB}')
} else {
None
}
}
} else {
if b < 0x309 {
if b == 0x303 {
Some('\u{1EE1}')
} else {
None
}
} else {
if b < 0x323 {
if b == 0x309 {
Some('\u{1EDF}')
} else {
None
}
} else {
if b == 0x323 {
Some('\u{1EE3}')
} else {
None
}
}
}
}
} else {
None
}
} else {
if a == 0x1AF {
if b < 0x303 {
if b < 0x301 {
if b == 0x300 {
Some('\u{1EEA}')
} else {
None
}
} else {
if b == 0x301 {
Some('\u{1EE8}')
} else {
None
}
}
} else {
if b < 0x309 {
if b == 0x303 {
Some('\u{1EEE}')
} else {
None
}
} else {
if b < 0x323 {
if b == 0x309 {
Some('\u{1EEC}')
} else {
None
}
} else {
if b == 0x323 {
Some('\u{1EF0}')
} else {
None
}
}
}
}
} else {
None
}
}
} else {
if a < 0x1B7 {
if a == 0x1B0 {
if b < 0x303 {
if b < 0x301 {
if b == 0x300 {
Some('\u{1EEB}')
} else {
None
}
} else {
if b == 0x301 {
Some('\u{1EE9}')
} else {
None
}
}
} else {
if b < 0x309 {
if b == 0x303 {
Some('\u{1EEF}')
} else {
None
}
} else {
if b < 0x323 {
if b == 0x309 {
Some('\u{1EED}')
} else {
None
}
} else {
if b == 0x323 {
Some('\u{1EF1}')
} else {
None
}
}
}
}
} else {
None
}
} else {
if a < 0x1EA {
if a == 0x1B7 {
if b == 0x30C {
Some('\u{1EE}')
} else {
None
}
} else {
None
}
} else {
if a == 0x1EA {
if b == 0x304 {
Some('\u{1EC}')
} else {
None
}
} else {
None
}
}
}
}
} else {
if a < 0x228 {
if a < 0x226 {
if a == 0x1EB {
if b == 0x304 {
Some('\u{1ED}')
} else {
None
}
} else {
None
}
} else {
if a < 0x227 {
if a == 0x226 {
if b == 0x304 {
Some('\u{1E0}')
} else {
None
}
} else {
None
}
} else {
if a == 0x227 {
if b == 0x304 {
Some('\u{1E1}')
} else {
None
}
} else {
None
}
}
}
} else {
if a < 0x229 {
if a == 0x228 {
if b == 0x306 {
Some('\u{1E1C}')
} else {
None
}
} else {
None
}
} else {
if a < 0x22E {
if a == 0x229 {
if b == 0x306 {
Some('\u{1E1D}')
} else {
None
}
} else {
None
}
} else {
if a == 0x22E {
if b == 0x304 {
Some('\u{230}')
} else {
None
}
} else {
None
}
}
}
}
}
} else {
if a < 0x39F {
if a < 0x395 {
if a < 0x292 {
if a == 0x22F {
if b == 0x304 {
Some('\u{231}')
} else {
None
}
} else {
None
}
} else {
if a < 0x391 {
if a == 0x292 {
if b == 0x30C {
Some('\u{1EF}')
} else {
None
}
} else {
None
}
} else {
if a == 0x391 {
if b < 0x306 {
if b < 0x301 {
if b == 0x300 {
Some('\u{1FBA}')
} else {
None
}
} else {
if b < 0x304 {
if b == 0x301 {
Some('\u{386}')
} else {
None
}
} else {
if b == 0x304 {
Some('\u{1FB9}')
} else {
None
}
}
}
} else {
if b < 0x314 {
if b < 0x313 {
if b == 0x306 {
Some('\u{1FB8}')
} else {
None
}
} else {
if b == 0x313 {
Some('\u{1F08}')
} else {
None
}
}
} else {
if b < 0x345 {
if b == 0x314 {
Some('\u{1F09}')
} else {
None
}
} else {
if b == 0x345 {
Some('\u{1FBC}')
} else {
None
}
}
}
}
} else {
None
}
}
}
} else {
if a < 0x397 {
if a == 0x395 {
if b < 0x313 {
if b < 0x301 {
if b == 0x300 {
Some('\u{1FC8}')
} else {
None
}
} else {
if b == 0x301 {
Some('\u{388}')
} else {
None
}
}
} else {
if b < 0x314 {
if b == 0x313 {
Some('\u{1F18}')
} else {
None
}
} else {
if b == 0x314 {
Some('\u{1F19}')
} else {
None
}
}
}
} else {
None
}
} else {
if a < 0x399 {
if a == 0x397 {
if b < 0x313 {
if b < 0x301 {
if b == 0x300 {
Some('\u{1FCA}')
} else {
None
}
} else {
if b == 0x301 {
Some('\u{389}')
} else {
None
}
}
} else {
if b < 0x314 {
if b == 0x313 {
Some('\u{1F28}')
} else {
None
}
} else {
if b < 0x345 {
if b == 0x314 {
Some('\u{1F29}')
} else {
None
}
} else {
if b == 0x345 {
Some('\u{1FCC}')
} else {
None
}
}
}
}
} else {
None
}
} else {
if a == 0x399 {
if b < 0x306 {
if b < 0x301 {
if b == 0x300 {
Some('\u{1FDA}')
} else {
None
}
} else {
if b < 0x304 {
if b == 0x301 {
Some('\u{38A}')
} else {
None
}
} else {
if b == 0x304 {
Some('\u{1FD9}')
} else {
None
}
}
}
} else {
if b < 0x313 {
if b < 0x308 {
if b == 0x306 {
Some('\u{1FD8}')
} else {
None
}
} else {
if b == 0x308 {
Some('\u{3AA}')
} else {
None
}
}
} else {
if b < 0x314 {
if b == 0x313 {
Some('\u{1F38}')
} else {
None
}
} else {
if b == 0x314 {
Some('\u{1F39}')
} else {
None
}
}
}
}
} else {
None
}
}
}
}
} else {
if a < 0x3A9 {
if a < 0x3A1 {
if a == 0x39F {
if b < 0x313 {
if b < 0x301 {
if b == 0x300 {
Some('\u{1FF8}')
} else {
None
}
} else {
if b == 0x301 {
Some('\u{38C}')
} else {
None
}
}
} else {
if b < 0x314 {
if b == 0x313 {
Some('\u{1F48}')
} else {
None
}
} else {
if b == 0x314 {
Some('\u{1F49}')
} else {
None
}
}
}
} else {
None
}
} else {
if a < 0x3A5 {
if a == 0x3A1 {
if b == 0x314 {
Some('\u{1FEC}')
} else {
None
}
} else {
None
}
} else {
if a == 0x3A5 {
if b < 0x306 {
if b < 0x301 {
if b == 0x300 {
Some('\u{1FEA}')
} else {
None
}
} else {
if b < 0x304 {
if b == 0x301 {
Some('\u{38E}')
} else {
None
}
} else {
if b == 0x304 {
Some('\u{1FE9}')
} else {
None
}
}
}
} else {
if b < 0x308 {
if b == 0x306 {
Some('\u{1FE8}')
} else {
None
}
} else {
if b < 0x314 {
if b == 0x308 {
Some('\u{3AB}')
} else {
None
}
} else {
if b == 0x314 {
Some('\u{1F59}')
} else {
None
}
}
}
}
} else {
None
}
}
}
} else {
if a < 0x3AC {
if a == 0x3A9 {
if b < 0x313 {
if b < 0x301 {
if b == 0x300 {
Some('\u{1FFA}')
} else {
None
}
} else {
if b == 0x301 {
Some('\u{38F}')
} else {
None
}
}
} else {
if b < 0x314 {
if b == 0x313 {
Some('\u{1F68}')
} else {
None
}
} else {
if b < 0x345 {
if b == 0x314 {
Some('\u{1F69}')
} else {
None
}
} else {
if b == 0x345 {
Some('\u{1FFC}')
} else {
None
}
}
}
}
} else {
None
}
} else {
if a < 0x3AE {
if a == 0x3AC {
if b == 0x345 {
Some('\u{1FB4}')
} else {
None
}
} else {
None
}
} else {
if a == 0x3AE {
if b == 0x345 {
Some('\u{1FC4}')
} else {
None
}
} else {
None
}
}
}
}
}
}
} else {
if a < 0x406 {
if a < 0x3C5 {
if a < 0x3B9 {
if a < 0x3B5 {
if a == 0x3B1 {
if b < 0x313 {
if b < 0x304 {
if b < 0x301 {
if b == 0x300 {
Some('\u{1F70}')
} else {
None
}
} else {
if b == 0x301 {
Some('\u{3AC}')
} else {
None
}
}
} else {
if b < 0x306 {
if b == 0x304 {
Some('\u{1FB1}')
} else {
None
}
} else {
if b == 0x306 {
Some('\u{1FB0}')
} else {
None
}
}
}
} else {
if b < 0x342 {
if b < 0x314 {
if b == 0x313 {
Some('\u{1F00}')
} else {
None
}
} else {
if b == 0x314 {
Some('\u{1F01}')
} else {
None
}
}
} else {
if b < 0x345 {
if b == 0x342 {
Some('\u{1FB6}')
} else {
None
}
} else {
if b == 0x345 {
Some('\u{1FB3}')
} else {
None
}
}
}
}
} else {
None
}
} else {
if a < 0x3B7 {
if a == 0x3B5 {
if b < 0x313 {
if b < 0x301 {
if b == 0x300 {
Some('\u{1F72}')
} else {
None
}
} else {
if b == 0x301 {
Some('\u{3AD}')
} else {
None
}
}
} else {
if b < 0x314 {
if b == 0x313 {
Some('\u{1F10}')
} else {
None
}
} else {
if b == 0x314 {
Some('\u{1F11}')
} else {
None
}
}
}
} else {
None
}
} else {
if a == 0x3B7 {
if b < 0x314 {
if b < 0x301 {
if b == 0x300 {
Some('\u{1F74}')
} else {
None
}
} else {
if b < 0x313 {
if b == 0x301 {
Some('\u{3AE}')
} else {
None
}
} else {
if b == 0x313 {
Some('\u{1F20}')
} else {
None
}
}
}
} else {
if b < 0x342 {
if b == 0x314 {
Some('\u{1F21}')
} else {
None
}
} else {
if b < 0x345 {
if b == 0x342 {
Some('\u{1FC6}')
} else {
None
}
} else {
if b == 0x345 {
Some('\u{1FC3}')
} else {
None
}
}
}
}
} else {
None
}
}
}
} else {
if a < 0x3BF {
if a == 0x3B9 {
if b < 0x308 {
if b < 0x304 {
if b < 0x301 {
if b == 0x300 {
Some('\u{1F76}')
} else {
None
}
} else {
if b == 0x301 {
Some('\u{3AF}')
} else {
None
}
}
} else {
if b < 0x306 {
if b == 0x304 {
Some('\u{1FD1}')
} else {
None
}
} else {
if b == 0x306 {
Some('\u{1FD0}')
} else {
None
}
}
}
} else {
if b < 0x314 {
if b < 0x313 {
if b == 0x308 {
Some('\u{3CA}')
} else {
None
}
} else {
if b == 0x313 {
Some('\u{1F30}')
} else {
None
}
}
} else {
if b < 0x342 {
if b == 0x314 {
Some('\u{1F31}')
} else {
None
}
} else {
if b == 0x342 {
Some('\u{1FD6}')
} else {
None
}
}
}
}
} else {
None
}
} else {
if a < 0x3C1 {
if a == 0x3BF {
if b < 0x313 {
if b < 0x301 {
if b == 0x300 {
Some('\u{1F78}')
} else {
None
}
} else {
if b == 0x301 {
Some('\u{3CC}')
} else {
None
}
}
} else {
if b < 0x314 {
if b == 0x313 {
Some('\u{1F40}')
} else {
None
}
} else {
if b == 0x314 {
Some('\u{1F41}')
} else {
None
}
}
}
} else {
None
}
} else {
if a == 0x3C1 {
if b < 0x314 {
if b == 0x313 {
Some('\u{1FE4}')
} else {
None
}
} else {
if b == 0x314 {
Some('\u{1FE5}')
} else {
None
}
}
} else {
None
}
}
}
}
} else {
if a < 0x3CB {
if a < 0x3C9 {
if a == 0x3C5 {
if b < 0x308 {
if b < 0x304 {
if b < 0x301 {
if b == 0x300 {
Some('\u{1F7A}')
} else {
None
}
} else {
if b == 0x301 {
Some('\u{3CD}')
} else {
None
}
}
} else {
if b < 0x306 {
if b == 0x304 {
Some('\u{1FE1}')
} else {
None
}
} else {
if b == 0x306 {
Some('\u{1FE0}')
} else {
None
}
}
}
} else {
if b < 0x314 {
if b < 0x313 {
if b == 0x308 {
Some('\u{3CB}')
} else {
None
}
} else {
if b == 0x313 {
Some('\u{1F50}')
} else {
None
}
}
} else {
if b < 0x342 {
if b == 0x314 {
Some('\u{1F51}')
} else {
None
}
} else {
if b == 0x342 {
Some('\u{1FE6}')
} else {
None
}
}
}
}
} else {
None
}
} else {
if a < 0x3CA {
if a == 0x3C9 {
if b < 0x314 {
if b < 0x301 {
if b == 0x300 {
Some('\u{1F7C}')
} else {
None
}
} else {
if b < 0x313 {
if b == 0x301 {
Some('\u{3CE}')
} else {
None
}
} else {
if b == 0x313 {
Some('\u{1F60}')
} else {
None
}
}
}
} else {
if b < 0x342 {
if b == 0x314 {
Some('\u{1F61}')
} else {
None
}
} else {
if b < 0x345 {
if b == 0x342 {
Some('\u{1FF6}')
} else {
None
}
} else {
if b == 0x345 {
Some('\u{1FF3}')
} else {
None
}
}
}
}
} else {
None
}
} else {
if a == 0x3CA {
if b < 0x301 {
if b == 0x300 {
Some('\u{1FD2}')
} else {
None
}
} else {
if b < 0x342 {
if b == 0x301 {
Some('\u{390}')
} else {
None
}
} else {
if b == 0x342 {
Some('\u{1FD7}')
} else {
None
}
}
}
} else {
None
}
}
}
} else {
if a < 0x3CE {
if a == 0x3CB {
if b < 0x301 {
if b == 0x300 {
Some('\u{1FE2}')
} else {
None
}
} else {
if b < 0x342 {
if b == 0x301 {
Some('\u{3B0}')
} else {
None
}
} else {
if b == 0x342 {
Some('\u{1FE7}')
} else {
None
}
}
}
} else {
None
}
} else {
if a < 0x3D2 {
if a == 0x3CE {
if b == 0x345 {
Some('\u{1FF4}')
} else {
None
}
} else {
None
}
} else {
if a == 0x3D2 {
if b < 0x308 {
if b == 0x301 {
Some('\u{3D3}')
} else {
None
}
} else {
if b == 0x308 {
Some('\u{3D4}')
} else {
None
}
}
} else {
None
}
}
}
}
}
} else {
if a < 0x418 {
if a < 0x415 {
if a < 0x410 {
if a == 0x406 {
if b == 0x308 {
Some('\u{407}')
} else {
None
}
} else {
None
}
} else {
if a < 0x413 {
if a == 0x410 {
if b < 0x308 {
if b == 0x306 {
Some('\u{4D0}')
} else {
None
}
} else {
if b == 0x308 {
Some('\u{4D2}')
} else {
None
}
}
} else {
None
}
} else {
if a == 0x413 {
if b == 0x301 {
Some('\u{403}')
} else {
None
}
} else {
None
}
}
}
} else {
if a < 0x416 {
if a == 0x415 {
if b < 0x306 {
if b == 0x300 {
Some('\u{400}')
} else {
None
}
} else {
if b < 0x308 {
if b == 0x306 {
Some('\u{4D6}')
} else {
None
}
} else {
if b == 0x308 {
Some('\u{401}')
} else {
None
}
}
}
} else {
None
}
} else {
if a < 0x417 {
if a == 0x416 {
if b < 0x308 {
if b == 0x306 {
Some('\u{4C1}')
} else {
None
}
} else {
if b == 0x308 {
Some('\u{4DC}')
} else {
None
}
}
} else {
None
}
} else {
if a == 0x417 {
if b == 0x308 {
Some('\u{4DE}')
} else {
None
}
} else {
None
}
}
}
}
} else {
if a < 0x423 {
if a < 0x41A {
if a == 0x418 {
if b < 0x306 {
if b < 0x304 {
if b == 0x300 {
Some('\u{40D}')
} else {
None
}
} else {
if b == 0x304 {
Some('\u{4E2}')
} else {
None
}
}
} else {
if b < 0x308 {
if b == 0x306 {
Some('\u{419}')
} else {
None
}
} else {
if b == 0x308 {
Some('\u{4E4}')
} else {
None
}
}
}
} else {
None
}
} else {
if a < 0x41E {
if a == 0x41A {
if b == 0x301 {
Some('\u{40C}')
} else {
None
}
} else {
None
}
} else {
if a == 0x41E {
if b == 0x308 {
Some('\u{4E6}')
} else {
None
}
} else {
None
}
}
}
} else {
if a < 0x427 {
if a == 0x423 {
if b < 0x308 {
if b < 0x306 {
if b == 0x304 {
Some('\u{4EE}')
} else {
None
}
} else {
if b == 0x306 {
Some('\u{40E}')
} else {
None
}
}
} else {
if b < 0x30B {
if b == 0x308 {
Some('\u{4F0}')
} else {
None
}
} else {
if b == 0x30B {
Some('\u{4F2}')
} else {
None
}
}
}
} else {
None
}
} else {
if a < 0x42B {
if a == 0x427 {
if b == 0x308 {
Some('\u{4F4}')
} else {
None
}
} else {
None
}
} else {
if a == 0x42B {
if b == 0x308 {
Some('\u{4F8}')
} else {
None
}
} else {
None
}
}
}
}
}
}
}
} else {
if a < 0x6C1 {
if a < 0x44B {
if a < 0x437 {
if a < 0x433 {
if a < 0x430 {
if a == 0x42D {
if b == 0x308 {
Some('\u{4EC}')
} else {
None
}
} else {
None
}
} else {
if a == 0x430 {
if b < 0x308 {
if b == 0x306 {
Some('\u{4D1}')
} else {
None
}
} else {
if b == 0x308 {
Some('\u{4D3}')
} else {
None
}
}
} else {
None
}
}
} else {
if a < 0x435 {
if a == 0x433 {
if b == 0x301 {
Some('\u{453}')
} else {
None
}
} else {
None
}
} else {
if a < 0x436 {
if a == 0x435 {
if b < 0x306 {
if b == 0x300 {
Some('\u{450}')
} else {
None
}
} else {
if b < 0x308 {
if b == 0x306 {
Some('\u{4D7}')
} else {
None
}
} else {
if b == 0x308 {
Some('\u{451}')
} else {
None
}
}
}
} else {
None
}
} else {
if a == 0x436 {
if b < 0x308 {
if b == 0x306 {
Some('\u{4C2}')
} else {
None
}
} else {
if b == 0x308 {
Some('\u{4DD}')
} else {
None
}
}
} else {
None
}
}
}
}
} else {
if a < 0x43E {
if a < 0x438 {
if a == 0x437 {
if b == 0x308 {
Some('\u{4DF}')
} else {
None
}
} else {
None
}
} else {
if a < 0x43A {
if a == 0x438 {
if b < 0x306 {
if b < 0x304 {
if b == 0x300 {
Some('\u{45D}')
} else {
None
}
} else {
if b == 0x304 {
Some('\u{4E3}')
} else {
None
}
}
} else {
if b < 0x308 {
if b == 0x306 {
Some('\u{439}')
} else {
None
}
} else {
if b == 0x308 {
Some('\u{4E5}')
} else {
None
}
}
}
} else {
None
}
} else {
if a == 0x43A {
if b == 0x301 {
Some('\u{45C}')
} else {
None
}
} else {
None
}
}
}
} else {
if a < 0x443 {
if a == 0x43E {
if b == 0x308 {
Some('\u{4E7}')
} else {
None
}
} else {
None
}
} else {
if a < 0x447 {
if a == 0x443 {
if b < 0x308 {
if b < 0x306 {
if b == 0x304 {
Some('\u{4EF}')
} else {
None
}
} else {
if b == 0x306 {
Some('\u{45E}')
} else {
None
}
}
} else {
if b < 0x30B {
if b == 0x308 {
Some('\u{4F1}')
} else {
None
}
} else {
if b == 0x30B {
Some('\u{4F3}')
} else {
None
}
}
}
} else {
None
}
} else {
if a == 0x447 {
if b == 0x308 {
Some('\u{4F5}')
} else {
None
}
} else {
None
}
}
}
}
}
} else {
if a < 0x4D9 {
if a < 0x474 {
if a < 0x44D {
if a == 0x44B {
if b == 0x308 {
Some('\u{4F9}')
} else {
None
}
} else {
None
}
} else {
if a < 0x456 {
if a == 0x44D {
if b == 0x308 {
Some('\u{4ED}')
} else {
None
}
} else {
None
}
} else {
if a == 0x456 {
if b == 0x308 {
Some('\u{457}')
} else {
None
}
} else {
None
}
}
}
} else {
if a < 0x475 {
if a == 0x474 {
if b == 0x30F {
Some('\u{476}')
} else {
None
}
} else {
None
}
} else {
if a < 0x4D8 {
if a == 0x475 {
if b == 0x30F {
Some('\u{477}')
} else {
None
}
} else {
None
}
} else {
if a == 0x4D8 {
if b == 0x308 {
Some('\u{4DA}')
} else {
None
}
} else {
None
}
}
}
}
} else {
if a < 0x627 {
if a < 0x4E8 {
if a == 0x4D9 {
if b == 0x308 {
Some('\u{4DB}')
} else {
None
}
} else {
None
}
} else {
if a < 0x4E9 {
if a == 0x4E8 {
if b == 0x308 {
Some('\u{4EA}')
} else {
None
}
} else {
None
}
} else {
if a == 0x4E9 {
if b == 0x308 {
Some('\u{4EB}')
} else {
None
}
} else {
None
}
}
}
} else {
if a < 0x648 {
if a == 0x627 {
if b < 0x654 {
if b == 0x653 {
Some('\u{622}')
} else {
None
}
} else {
if b < 0x655 {
if b == 0x654 {
Some('\u{623}')
} else {
None
}
} else {
if b == 0x655 {
Some('\u{625}')
} else {
None
}
}
}
} else {
None
}
} else {
if a < 0x64A {
if a == 0x648 {
if b == 0x654 {
Some('\u{624}')
} else {
None
}
} else {
None
}
} else {
if a == 0x64A {
if b == 0x654 {
Some('\u{626}')
} else {
None
}
} else {
None
}
}
}
}
}
}
} else {
if a < 0xCBF {
if a < 0x9C7 {
if a < 0x928 {
if a < 0x6D2 {
if a == 0x6C1 {
if b == 0x654 {
Some('\u{6C2}')
} else {
None
}
} else {
None
}
} else {
if a < 0x6D5 {
if a == 0x6D2 {
if b == 0x654 {
Some('\u{6D3}')
} else {
None
}
} else {
None
}
} else {
if a == 0x6D5 {
if b == 0x654 {
Some('\u{6C0}')
} else {
None
}
} else {
None
}
}
}
} else {
if a < 0x930 {
if a == 0x928 {
if b == 0x93C {
Some('\u{929}')
} else {
None
}
} else {
None
}
} else {
if a < 0x933 {
if a == 0x930 {
if b == 0x93C {
Some('\u{931}')
} else {
None
}
} else {
None
}
} else {
if a == 0x933 {
if b == 0x93C {
Some('\u{934}')
} else {
None
}
} else {
None
}
}
}
}
} else {
if a < 0xBC6 {
if a < 0xB47 {
if a == 0x9C7 {
if b < 0x9D7 {
if b == 0x9BE {
Some('\u{9CB}')
} else {
None
}
} else {
if b == 0x9D7 {
Some('\u{9CC}')
} else {
None
}
}
} else {
None
}
} else {
if a < 0xB92 {
if a == 0xB47 {
if b < 0xB56 {
if b == 0xB3E {
Some('\u{B4B}')
} else {
None
}
} else {
if b < 0xB57 {
if b == 0xB56 {
Some('\u{B48}')
} else {
None
}
} else {
if b == 0xB57 {
Some('\u{B4C}')
} else {
None
}
}
}
} else {
None
}
} else {
if a == 0xB92 {
if b == 0xBD7 {
Some('\u{B94}')
} else {
None
}
} else {
None
}
}
}
} else {
if a < 0xBC7 {
if a == 0xBC6 {
if b < 0xBD7 {
if b == 0xBBE {
Some('\u{BCA}')
} else {
None
}
} else {
if b == 0xBD7 {
Some('\u{BCC}')
} else {
None
}
}
} else {
None
}
} else {
if a < 0xC46 {
if a == 0xBC7 {
if b == 0xBBE {
Some('\u{BCB}')
} else {
None
}
} else {
None
}
} else {
if a == 0xC46 {
if b == 0xC56 {
Some('\u{C48}')
} else {
None
}
} else {
None
}
}
}
}
}
} else {
if a < 0xDDC {
if a < 0xD46 {
if a < 0xCC6 {
if a == 0xCBF {
if b == 0xCD5 {
Some('\u{CC0}')
} else {
None
}
} else {
None
}
} else {
if a < 0xCCA {
if a == 0xCC6 {
if b < 0xCD5 {
if b == 0xCC2 {
Some('\u{CCA}')
} else {
None
}
} else {
if b < 0xCD6 {
if b == 0xCD5 {
Some('\u{CC7}')
} else {
None
}
} else {
if b == 0xCD6 {
Some('\u{CC8}')
} else {
None
}
}
}
} else {
None
}
} else {
if a == 0xCCA {
if b == 0xCD5 {
Some('\u{CCB}')
} else {
None
}
} else {
None
}
}
}
} else {
if a < 0xD47 {
if a == 0xD46 {
if b < 0xD57 {
if b == 0xD3E {
Some('\u{D4A}')
} else {
None
}
} else {
if b == 0xD57 {
Some('\u{D4C}')
} else {
None
}
}
} else {
None
}
} else {
if a < 0xDD9 {
if a == 0xD47 {
if b == 0xD3E {
Some('\u{D4B}')
} else {
None
}
} else {
None
}
} else {
if a == 0xDD9 {
if b < 0xDCF {
if b == 0xDCA {
Some('\u{DDA}')
} else {
None
}
} else {
if b < 0xDDF {
if b == 0xDCF {
Some('\u{DDC}')
} else {
None
}
} else {
if b == 0xDDF {
Some('\u{DDE}')
} else {
None
}
}
}
} else {
None
}
}
}
}
} else {
if a < 0x1B07 {
if a < 0x1025 {
if a == 0xDDC {
if b == 0xDCA {
Some('\u{DDD}')
} else {
None
}
} else {
None
}
} else {
if a < 0x1B05 {
if a == 0x1025 {
if b == 0x102E {
Some('\u{1026}')
} else {
None
}
} else {
None
}
} else {
if a == 0x1B05 {
if b == 0x1B35 {
Some('\u{1B06}')
} else {
None
}
} else {
None
}
}
}
} else {
if a < 0x1B09 {
if a == 0x1B07 {
if b == 0x1B35 {
Some('\u{1B08}')
} else {
None
}
} else {
None
}
} else {
if a < 0x1B0B {
if a == 0x1B09 {
if b == 0x1B35 {
Some('\u{1B0A}')
} else {
None
}
} else {
None
}
} else {
if a == 0x1B0B {
if b == 0x1B35 {
Some('\u{1B0C}')
} else {
None
}
} else {
None
}
}
}
}
}
}
}
}
}
} else {
if a < 0x21D2 {
if a < 0x1F28 {
if a < 0x1F04 {
if a < 0x1E62 {
if a < 0x1B3F {
if a < 0x1B3A {
if a < 0x1B11 {
if a == 0x1B0D {
if b == 0x1B35 {
Some('\u{1B0E}')
} else {
None
}
} else {
None
}
} else {
if a == 0x1B11 {
if b == 0x1B35 {
Some('\u{1B12}')
} else {
None
}
} else {
None
}
}
} else {
if a < 0x1B3C {
if a == 0x1B3A {
if b == 0x1B35 {
Some('\u{1B3B}')
} else {
None
}
} else {
None
}
} else {
if a < 0x1B3E {
if a == 0x1B3C {
if b == 0x1B35 {
Some('\u{1B3D}')
} else {
None
}
} else {
None
}
} else {
if a == 0x1B3E {
if b == 0x1B35 {
Some('\u{1B40}')
} else {
None
}
} else {
None
}
}
}
}
} else {
if a < 0x1E37 {
if a < 0x1B42 {
if a == 0x1B3F {
if b == 0x1B35 {
Some('\u{1B41}')
} else {
None
}
} else {
None
}
} else {
if a < 0x1E36 {
if a == 0x1B42 {
if b == 0x1B35 {
Some('\u{1B43}')
} else {
None
}
} else {
None
}
} else {
if a == 0x1E36 {
if b == 0x304 {
Some('\u{1E38}')
} else {
None
}
} else {
None
}
}
}
} else {
if a < 0x1E5A {
if a == 0x1E37 {
if b == 0x304 {
Some('\u{1E39}')
} else {
None
}
} else {
None
}
} else {
if a < 0x1E5B {
if a == 0x1E5A {
if b == 0x304 {
Some('\u{1E5C}')
} else {
None
}
} else {
None
}
} else {
if a == 0x1E5B {
if b == 0x304 {
Some('\u{1E5D}')
} else {
None
}
} else {
None
}
}
}
}
}
} else {
if a < 0x1ECC {
if a < 0x1EA1 {
if a < 0x1E63 {
if a == 0x1E62 {
if b == 0x307 {
Some('\u{1E68}')
} else {
None
}
} else {
None
}
} else {
if a < 0x1EA0 {
if a == 0x1E63 {
if b == 0x307 {
Some('\u{1E69}')
} else {
None
}
} else {
None
}
} else {
if a == 0x1EA0 {
if b < 0x306 {
if b == 0x302 {
Some('\u{1EAC}')
} else {
None
}
} else {
if b == 0x306 {
Some('\u{1EB6}')
} else {
None
}
}
} else {
None
}
}
}
} else {
if a < 0x1EB8 {
if a == 0x1EA1 {
if b < 0x306 {
if b == 0x302 {
Some('\u{1EAD}')
} else {
None
}
} else {
if b == 0x306 {
Some('\u{1EB7}')
} else {
None
}
}
} else {
None
}
} else {
if a < 0x1EB9 {
if a == 0x1EB8 {
if b == 0x302 {
Some('\u{1EC6}')
} else {
None
}
} else {
None
}
} else {
if a == 0x1EB9 {
if b == 0x302 {
Some('\u{1EC7}')
} else {
None
}
} else {
None
}
}
}
}
} else {
if a < 0x1F01 {
if a < 0x1ECD {
if a == 0x1ECC {
if b == 0x302 {
Some('\u{1ED8}')
} else {
None
}
} else {
None
}
} else {
if a < 0x1F00 {
if a == 0x1ECD {
if b == 0x302 {
Some('\u{1ED9}')
} else {
None
}
} else {
None
}
} else {
if a == 0x1F00 {
if b < 0x342 {
if b < 0x301 {
if b == 0x300 {
Some('\u{1F02}')
} else {
None
}
} else {
if b == 0x301 {
Some('\u{1F04}')
} else {
None
}
}
} else {
if b < 0x345 {
if b == 0x342 {
Some('\u{1F06}')
} else {
None
}
} else {
if b == 0x345 {
Some('\u{1F80}')
} else {
None
}
}
}
} else {
None
}
}
}
} else {
if a < 0x1F02 {
if a == 0x1F01 {
if b < 0x342 {
if b < 0x301 {
if b == 0x300 {
Some('\u{1F03}')
} else {
None
}
} else {
if b == 0x301 {
Some('\u{1F05}')
} else {
None
}
}
} else {
if b < 0x345 {
if b == 0x342 {
Some('\u{1F07}')
} else {
None
}
} else {
if b == 0x345 {
Some('\u{1F81}')
} else {
None
}
}
}
} else {
None
}
} else {
if a < 0x1F03 {
if a == 0x1F02 {
if b == 0x345 {
Some('\u{1F82}')
} else {
None
}
} else {
None
}
} else {
if a == 0x1F03 {
if b == 0x345 {
Some('\u{1F83}')
} else {
None
}
} else {
None
}
}
}
}
}
}
} else {
if a < 0x1F10 {
if a < 0x1F0A {
if a < 0x1F07 {
if a < 0x1F05 {
if a == 0x1F04 {
if b == 0x345 {
Some('\u{1F84}')
} else {
None
}
} else {
None
}
} else {
if a < 0x1F06 {
if a == 0x1F05 {
if b == 0x345 {
Some('\u{1F85}')
} else {
None
}
} else {
None
}
} else {
if a == 0x1F06 {
if b == 0x345 {
Some('\u{1F86}')
} else {
None
}
} else {
None
}
}
}
} else {
if a < 0x1F08 {
if a == 0x1F07 {
if b == 0x345 {
Some('\u{1F87}')
} else {
None
}
} else {
None
}
} else {
if a < 0x1F09 {
if a == 0x1F08 {
if b < 0x342 {
if b < 0x301 {
if b == 0x300 {
Some('\u{1F0A}')
} else {
None
}
} else {
if b == 0x301 {
Some('\u{1F0C}')
} else {
None
}
}
} else {
if b < 0x345 {
if b == 0x342 {
Some('\u{1F0E}')
} else {
None
}
} else {
if b == 0x345 {
Some('\u{1F88}')
} else {
None
}
}
}
} else {
None
}
} else {
if a == 0x1F09 {
if b < 0x342 {
if b < 0x301 {
if b == 0x300 {
Some('\u{1F0B}')
} else {
None
}
} else {
if b == 0x301 {
Some('\u{1F0D}')
} else {
None
}
}
} else {
if b < 0x345 {
if b == 0x342 {
Some('\u{1F0F}')
} else {
None
}
} else {
if b == 0x345 {
Some('\u{1F89}')
} else {
None
}
}
}
} else {
None
}
}
}
}
} else {
if a < 0x1F0D {
if a < 0x1F0B {
if a == 0x1F0A {
if b == 0x345 {
Some('\u{1F8A}')
} else {
None
}
} else {
None
}
} else {
if a < 0x1F0C {
if a == 0x1F0B {
if b == 0x345 {
Some('\u{1F8B}')
} else {
None
}
} else {
None
}
} else {
if a == 0x1F0C {
if b == 0x345 {
Some('\u{1F8C}')
} else {
None
}
} else {
None
}
}
}
} else {
if a < 0x1F0E {
if a == 0x1F0D {
if b == 0x345 {
Some('\u{1F8D}')
} else {
None
}
} else {
None
}
} else {
if a < 0x1F0F {
if a == 0x1F0E {
if b == 0x345 {
Some('\u{1F8E}')
} else {
None
}
} else {
None
}
} else {
if a == 0x1F0F {
if b == 0x345 {
Some('\u{1F8F}')
} else {
None
}
} else {
None
}
}
}
}
}
} else {
if a < 0x1F22 {
if a < 0x1F19 {
if a < 0x1F11 {
if a == 0x1F10 {
if b < 0x301 {
if b == 0x300 {
Some('\u{1F12}')
} else {
None
}
} else {
if b == 0x301 {
Some('\u{1F14}')
} else {
None
}
}
} else {
None
}
} else {
if a < 0x1F18 {
if a == 0x1F11 {
if b < 0x301 {
if b == 0x300 {
Some('\u{1F13}')
} else {
None
}
} else {
if b == 0x301 {
Some('\u{1F15}')
} else {
None
}
}
} else {
None
}
} else {
if a == 0x1F18 {
if b < 0x301 {
if b == 0x300 {
Some('\u{1F1A}')
} else {
None
}
} else {
if b == 0x301 {
Some('\u{1F1C}')
} else {
None
}
}
} else {
None
}
}
}
} else {
if a < 0x1F20 {
if a == 0x1F19 {
if b < 0x301 {
if b == 0x300 {
Some('\u{1F1B}')
} else {
None
}
} else {
if b == 0x301 {
Some('\u{1F1D}')
} else {
None
}
}
} else {
None
}
} else {
if a < 0x1F21 {
if a == 0x1F20 {
if b < 0x342 {
if b < 0x301 {
if b == 0x300 {
Some('\u{1F22}')
} else {
None
}
} else {
if b == 0x301 {
Some('\u{1F24}')
} else {
None
}
}
} else {
if b < 0x345 {
if b == 0x342 {
Some('\u{1F26}')
} else {
None
}
} else {
if b == 0x345 {
Some('\u{1F90}')
} else {
None
}
}
}
} else {
None
}
} else {
if a == 0x1F21 {
if b < 0x342 {
if b < 0x301 {
if b == 0x300 {
Some('\u{1F23}')
} else {
None
}
} else {
if b == 0x301 {
Some('\u{1F25}')
} else {
None
}
}
} else {
if b < 0x345 {
if b == 0x342 {
Some('\u{1F27}')
} else {
None
}
} else {
if b == 0x345 {
Some('\u{1F91}')
} else {
None
}
}
}
} else {
None
}
}
}
}
} else {
if a < 0x1F25 {
if a < 0x1F23 {
if a == 0x1F22 {
if b == 0x345 {
Some('\u{1F92}')
} else {
None
}
} else {
None
}
} else {
if a < 0x1F24 {
if a == 0x1F23 {
if b == 0x345 {
Some('\u{1F93}')
} else {
None
}
} else {
None
}
} else {
if a == 0x1F24 {
if b == 0x345 {
Some('\u{1F94}')
} else {
None
}
} else {
None
}
}
}
} else {
if a < 0x1F26 {
if a == 0x1F25 {
if b == 0x345 {
Some('\u{1F95}')
} else {
None
}
} else {
None
}
} else {
if a < 0x1F27 {
if a == 0x1F26 {
if b == 0x345 {
Some('\u{1F96}')
} else {
None
}
} else {
None
}
} else {
if a == 0x1F27 {
if b == 0x345 {
Some('\u{1F97}')
} else {
None
}
} else {
None
}
}
}
}
}
}
}
} else {
if a < 0x1F64 {
if a < 0x1F39 {
if a < 0x1F2D {
if a < 0x1F2A {
if a < 0x1F29 {
if a == 0x1F28 {
if b < 0x342 {
if b < 0x301 {
if b == 0x300 {
Some('\u{1F2A}')
} else {
None
}
} else {
if b == 0x301 {
Some('\u{1F2C}')
} else {
None
}
}
} else {
if b < 0x345 {
if b == 0x342 {
Some('\u{1F2E}')
} else {
None
}
} else {
if b == 0x345 {
Some('\u{1F98}')
} else {
None
}
}
}
} else {
None
}
} else {
if a == 0x1F29 {
if b < 0x342 {
if b < 0x301 {
if b == 0x300 {
Some('\u{1F2B}')
} else {
None
}
} else {
if b == 0x301 {
Some('\u{1F2D}')
} else {
None
}
}
} else {
if b < 0x345 {
if b == 0x342 {
Some('\u{1F2F}')
} else {
None
}
} else {
if b == 0x345 {
Some('\u{1F99}')
} else {
None
}
}
}
} else {
None
}
}
} else {
if a < 0x1F2B {
if a == 0x1F2A {
if b == 0x345 {
Some('\u{1F9A}')
} else {
None
}
} else {
None
}
} else {
if a < 0x1F2C {
if a == 0x1F2B {
if b == 0x345 {
Some('\u{1F9B}')
} else {
None
}
} else {
None
}
} else {
if a == 0x1F2C {
if b == 0x345 {
Some('\u{1F9C}')
} else {
None
}
} else {
None
}
}
}
}
} else {
if a < 0x1F30 {
if a < 0x1F2E {
if a == 0x1F2D {
if b == 0x345 {
Some('\u{1F9D}')
} else {
None
}
} else {
None
}
} else {
if a < 0x1F2F {
if a == 0x1F2E {
if b == 0x345 {
Some('\u{1F9E}')
} else {
None
}
} else {
None
}
} else {
if a == 0x1F2F {
if b == 0x345 {
Some('\u{1F9F}')
} else {
None
}
} else {
None
}
}
}
} else {
if a < 0x1F31 {
if a == 0x1F30 {
if b < 0x301 {
if b == 0x300 {
Some('\u{1F32}')
} else {
None
}
} else {
if b < 0x342 {
if b == 0x301 {
Some('\u{1F34}')
} else {
None
}
} else {
if b == 0x342 {
Some('\u{1F36}')
} else {
None
}
}
}
} else {
None
}
} else {
if a < 0x1F38 {
if a == 0x1F31 {
if b < 0x301 {
if b == 0x300 {
Some('\u{1F33}')
} else {
None
}
} else {
if b < 0x342 {
if b == 0x301 {
Some('\u{1F35}')
} else {
None
}
} else {
if b == 0x342 {
Some('\u{1F37}')
} else {
None
}
}
}
} else {
None
}
} else {
if a == 0x1F38 {
if b < 0x301 {
if b == 0x300 {
Some('\u{1F3A}')
} else {
None
}
} else {
if b < 0x342 {
if b == 0x301 {
Some('\u{1F3C}')
} else {
None
}
} else {
if b == 0x342 {
Some('\u{1F3E}')
} else {
None
}
}
}
} else {
None
}
}
}
}
}
} else {
if a < 0x1F51 {
if a < 0x1F48 {
if a < 0x1F40 {
if a == 0x1F39 {
if b < 0x301 {
if b == 0x300 {
Some('\u{1F3B}')
} else {
None
}
} else {
if b < 0x342 {
if b == 0x301 {
Some('\u{1F3D}')
} else {
None
}
} else {
if b == 0x342 {
Some('\u{1F3F}')
} else {
None
}
}
}
} else {
None
}
} else {
if a < 0x1F41 {
if a == 0x1F40 {
if b < 0x301 {
if b == 0x300 {
Some('\u{1F42}')
} else {
None
}
} else {
if b == 0x301 {
Some('\u{1F44}')
} else {
None
}
}
} else {
None
}
} else {
if a == 0x1F41 {
if b < 0x301 {
if b == 0x300 {
Some('\u{1F43}')
} else {
None
}
} else {
if b == 0x301 {
Some('\u{1F45}')
} else {
None
}
}
} else {
None
}
}
}
} else {
if a < 0x1F49 {
if a == 0x1F48 {
if b < 0x301 {
if b == 0x300 {
Some('\u{1F4A}')
} else {
None
}
} else {
if b == 0x301 {
Some('\u{1F4C}')
} else {
None
}
}
} else {
None
}
} else {
if a < 0x1F50 {
if a == 0x1F49 {
if b < 0x301 {
if b == 0x300 {
Some('\u{1F4B}')
} else {
None
}
} else {
if b == 0x301 {
Some('\u{1F4D}')
} else {
None
}
}
} else {
None
}
} else {
if a == 0x1F50 {
if b < 0x301 {
if b == 0x300 {
Some('\u{1F52}')
} else {
None
}
} else {
if b < 0x342 {
if b == 0x301 {
Some('\u{1F54}')
} else {
None
}
} else {
if b == 0x342 {
Some('\u{1F56}')
} else {
None
}
}
}
} else {
None
}
}
}
}
} else {
if a < 0x1F61 {
if a < 0x1F59 {
if a == 0x1F51 {
if b < 0x301 {
if b == 0x300 {
Some('\u{1F53}')
} else {
None
}
} else {
if b < 0x342 {
if b == 0x301 {
Some('\u{1F55}')
} else {
None
}
} else {
if b == 0x342 {
Some('\u{1F57}')
} else {
None
}
}
}
} else {
None
}
} else {
if a < 0x1F60 {
if a == 0x1F59 {
if b < 0x301 {
if b == 0x300 {
Some('\u{1F5B}')
} else {
None
}
} else {
if b < 0x342 {
if b == 0x301 {
Some('\u{1F5D}')
} else {
None
}
} else {
if b == 0x342 {
Some('\u{1F5F}')
} else {
None
}
}
}
} else {
None
}
} else {
if a == 0x1F60 {
if b < 0x342 {
if b < 0x301 {
if b == 0x300 {
Some('\u{1F62}')
} else {
None
}
} else {
if b == 0x301 {
Some('\u{1F64}')
} else {
None
}
}
} else {
if b < 0x345 {
if b == 0x342 {
Some('\u{1F66}')
} else {
None
}
} else {
if b == 0x345 {
Some('\u{1FA0}')
} else {
None
}
}
}
} else {
None
}
}
}
} else {
if a < 0x1F62 {
if a == 0x1F61 {
if b < 0x342 {
if b < 0x301 {
if b == 0x300 {
Some('\u{1F63}')
} else {
None
}
} else {
if b == 0x301 {
Some('\u{1F65}')
} else {
None
}
}
} else {
if b < 0x345 {
if b == 0x342 {
Some('\u{1F67}')
} else {
None
}
} else {
if b == 0x345 {
Some('\u{1FA1}')
} else {
None
}
}
}
} else {
None
}
} else {
if a < 0x1F63 {
if a == 0x1F62 {
if b == 0x345 {
Some('\u{1FA2}')
} else {
None
}
} else {
None
}
} else {
if a == 0x1F63 {
if b == 0x345 {
Some('\u{1FA3}')
} else {
None
}
} else {
None
}
}
}
}
}
}
} else {
if a < 0x1F70 {
if a < 0x1F6A {
if a < 0x1F67 {
if a < 0x1F65 {
if a == 0x1F64 {
if b == 0x345 {
Some('\u{1FA4}')
} else {
None
}
} else {
None
}
} else {
if a < 0x1F66 {
if a == 0x1F65 {
if b == 0x345 {
Some('\u{1FA5}')
} else {
None
}
} else {
None
}
} else {
if a == 0x1F66 {
if b == 0x345 {
Some('\u{1FA6}')
} else {
None
}
} else {
None
}
}
}
} else {
if a < 0x1F68 {
if a == 0x1F67 {
if b == 0x345 {
Some('\u{1FA7}')
} else {
None
}
} else {
None
}
} else {
if a < 0x1F69 {
if a == 0x1F68 {
if b < 0x342 {
if b < 0x301 {
if b == 0x300 {
Some('\u{1F6A}')
} else {
None
}
} else {
if b == 0x301 {
Some('\u{1F6C}')
} else {
None
}
}
} else {
if b < 0x345 {
if b == 0x342 {
Some('\u{1F6E}')
} else {
None
}
} else {
if b == 0x345 {
Some('\u{1FA8}')
} else {
None
}
}
}
} else {
None
}
} else {
if a == 0x1F69 {
if b < 0x342 {
if b < 0x301 {
if b == 0x300 {
Some('\u{1F6B}')
} else {
None
}
} else {
if b == 0x301 {
Some('\u{1F6D}')
} else {
None
}
}
} else {
if b < 0x345 {
if b == 0x342 {
Some('\u{1F6F}')
} else {
None
}
} else {
if b == 0x345 {
Some('\u{1FA9}')
} else {
None
}
}
}
} else {
None
}
}
}
}
} else {
if a < 0x1F6D {
if a < 0x1F6B {
if a == 0x1F6A {
if b == 0x345 {
Some('\u{1FAA}')
} else {
None
}
} else {
None
}
} else {
if a < 0x1F6C {
if a == 0x1F6B {
if b == 0x345 {
Some('\u{1FAB}')
} else {
None
}
} else {
None
}
} else {
if a == 0x1F6C {
if b == 0x345 {
Some('\u{1FAC}')
} else {
None
}
} else {
None
}
}
}
} else {
if a < 0x1F6E {
if a == 0x1F6D {
if b == 0x345 {
Some('\u{1FAD}')
} else {
None
}
} else {
None
}
} else {
if a < 0x1F6F {
if a == 0x1F6E {
if b == 0x345 {
Some('\u{1FAE}')
} else {
None
}
} else {
None
}
} else {
if a == 0x1F6F {
if b == 0x345 {
Some('\u{1FAF}')
} else {
None
}
} else {
None
}
}
}
}
}
} else {
if a < 0x1FF6 {
if a < 0x1FB6 {
if a < 0x1F74 {
if a == 0x1F70 {
if b == 0x345 {
Some('\u{1FB2}')
} else {
None
}
} else {
None
}
} else {
if a < 0x1F7C {
if a == 0x1F74 {
if b == 0x345 {
Some('\u{1FC2}')
} else {
None
}
} else {
None
}
} else {
if a == 0x1F7C {
if b == 0x345 {
Some('\u{1FF2}')
} else {
None
}
} else {
None
}
}
}
} else {
if a < 0x1FBF {
if a == 0x1FB6 {
if b == 0x345 {
Some('\u{1FB7}')
} else {
None
}
} else {
None
}
} else {
if a < 0x1FC6 {
if a == 0x1FBF {
if b < 0x301 {
if b == 0x300 {
Some('\u{1FCD}')
} else {
None
}
} else {
if b < 0x342 {
if b == 0x301 {
Some('\u{1FCE}')
} else {
None
}
} else {
if b == 0x342 {
Some('\u{1FCF}')
} else {
None
}
}
}
} else {
None
}
} else {
if a == 0x1FC6 {
if b == 0x345 {
Some('\u{1FC7}')
} else {
None
}
} else {
None
}
}
}
}
} else {
if a < 0x2192 {
if a < 0x1FFE {
if a == 0x1FF6 {
if b == 0x345 {
Some('\u{1FF7}')
} else {
None
}
} else {
None
}
} else {
if a < 0x2190 {
if a == 0x1FFE {
if b < 0x301 {
if b == 0x300 {
Some('\u{1FDD}')
} else {
None
}
} else {
if b < 0x342 {
if b == 0x301 {
Some('\u{1FDE}')
} else {
None
}
} else {
if b == 0x342 {
Some('\u{1FDF}')
} else {
None
}
}
}
} else {
None
}
} else {
if a == 0x2190 {
if b == 0x338 {
Some('\u{219A}')
} else {
None
}
} else {
None
}
}
}
} else {
if a < 0x2194 {
if a == 0x2192 {
if b == 0x338 {
Some('\u{219B}')
} else {
None
}
} else {
None
}
} else {
if a < 0x21D0 {
if a == 0x2194 {
if b == 0x338 {
Some('\u{21AE}')
} else {
None
}
} else {
None
}
} else {
if a == 0x21D0 {
if b == 0x338 {
Some('\u{21CD}')
} else {
None
}
} else {
None
}
}
}
}
}
}
}
}
} else {
if a < 0x305D {
if a < 0x2282 {
if a < 0x224D {
if a < 0x2223 {
if a < 0x2203 {
if a < 0x21D4 {
if a == 0x21D2 {
if b == 0x338 {
Some('\u{21CF}')
} else {
None
}
} else {
None
}
} else {
if a == 0x21D4 {
if b == 0x338 {
Some('\u{21CE}')
} else {
None
}
} else {
None
}
}
} else {
if a < 0x2208 {
if a == 0x2203 {
if b == 0x338 {
Some('\u{2204}')
} else {
None
}
} else {
None
}
} else {
if a < 0x220B {
if a == 0x2208 {
if b == 0x338 {
Some('\u{2209}')
} else {
None
}
} else {
None
}
} else {
if a == 0x220B {
if b == 0x338 {
Some('\u{220C}')
} else {
None
}
} else {
None
}
}
}
}
} else {
if a < 0x2243 {
if a < 0x2225 {
if a == 0x2223 {
if b == 0x338 {
Some('\u{2224}')
} else {
None
}
} else {
None
}
} else {
if a < 0x223C {
if a == 0x2225 {
if b == 0x338 {
Some('\u{2226}')
} else {
None
}
} else {
None
}
} else {
if a == 0x223C {
if b == 0x338 {
Some('\u{2241}')
} else {
None
}
} else {
None
}
}
}
} else {
if a < 0x2245 {
if a == 0x2243 {
if b == 0x338 {
Some('\u{2244}')
} else {
None
}
} else {
None
}
} else {
if a < 0x2248 {
if a == 0x2245 {
if b == 0x338 {
Some('\u{2247}')
} else {
None
}
} else {
None
}
} else {
if a == 0x2248 {
if b == 0x338 {
Some('\u{2249}')
} else {
None
}
} else {
None
}
}
}
}
}
} else {
if a < 0x2276 {
if a < 0x2265 {
if a < 0x2261 {
if a == 0x224D {
if b == 0x338 {
Some('\u{226D}')
} else {
None
}
} else {
None
}
} else {
if a < 0x2264 {
if a == 0x2261 {
if b == 0x338 {
Some('\u{2262}')
} else {
None
}
} else {
None
}
} else {
if a == 0x2264 {
if b == 0x338 {
Some('\u{2270}')
} else {
None
}
} else {
None
}
}
}
} else {
if a < 0x2272 {
if a == 0x2265 {
if b == 0x338 {
Some('\u{2271}')
} else {
None
}
} else {
None
}
} else {
if a < 0x2273 {
if a == 0x2272 {
if b == 0x338 {
Some('\u{2274}')
} else {
None
}
} else {
None
}
} else {
if a == 0x2273 {
if b == 0x338 {
Some('\u{2275}')
} else {
None
}
} else {
None
}
}
}
}
} else {
if a < 0x227B {
if a < 0x2277 {
if a == 0x2276 {
if b == 0x338 {
Some('\u{2278}')
} else {
None
}
} else {
None
}
} else {
if a < 0x227A {
if a == 0x2277 {
if b == 0x338 {
Some('\u{2279}')
} else {
None
}
} else {
None
}
} else {
if a == 0x227A {
if b == 0x338 {
Some('\u{2280}')
} else {
None
}
} else {
None
}
}
}
} else {
if a < 0x227C {
if a == 0x227B {
if b == 0x338 {
Some('\u{2281}')
} else {
None
}
} else {
None
}
} else {
if a < 0x227D {
if a == 0x227C {
if b == 0x338 {
Some('\u{22E0}')
} else {
None
}
} else {
None
}
} else {
if a == 0x227D {
if b == 0x338 {
Some('\u{22E1}')
} else {
None
}
} else {
None
}
}
}
}
}
}
} else {
if a < 0x22B4 {
if a < 0x22A2 {
if a < 0x2287 {
if a < 0x2283 {
if a == 0x2282 {
if b == 0x338 {
Some('\u{2284}')
} else {
None
}
} else {
None
}
} else {
if a < 0x2286 {
if a == 0x2283 {
if b == 0x338 {
Some('\u{2285}')
} else {
None
}
} else {
None
}
} else {
if a == 0x2286 {
if b == 0x338 {
Some('\u{2288}')
} else {
None
}
} else {
None
}
}
}
} else {
if a < 0x2291 {
if a == 0x2287 {
if b == 0x338 {
Some('\u{2289}')
} else {
None
}
} else {
None
}
} else {
if a < 0x2292 {
if a == 0x2291 {
if b == 0x338 {
Some('\u{22E2}')
} else {
None
}
} else {
None
}
} else {
if a == 0x2292 {
if b == 0x338 {
Some('\u{22E3}')
} else {
None
}
} else {
None
}
}
}
}
} else {
if a < 0x22AB {
if a < 0x22A8 {
if a == 0x22A2 {
if b == 0x338 {
Some('\u{22AC}')
} else {
None
}
} else {
None
}
} else {
if a < 0x22A9 {
if a == 0x22A8 {
if b == 0x338 {
Some('\u{22AD}')
} else {
None
}
} else {
None
}
} else {
if a == 0x22A9 {
if b == 0x338 {
Some('\u{22AE}')
} else {
None
}
} else {
None
}
}
}
} else {
if a < 0x22B2 {
if a == 0x22AB {
if b == 0x338 {
Some('\u{22AF}')
} else {
None
}
} else {
None
}
} else {
if a < 0x22B3 {
if a == 0x22B2 {
if b == 0x338 {
Some('\u{22EA}')
} else {
None
}
} else {
None
}
} else {
if a == 0x22B3 {
if b == 0x338 {
Some('\u{22EB}')
} else {
None
}
} else {
None
}
}
}
}
}
} else {
if a < 0x3051 {
if a < 0x304B {
if a < 0x22B5 {
if a == 0x22B4 {
if b == 0x338 {
Some('\u{22EC}')
} else {
None
}
} else {
None
}
} else {
if a < 0x3046 {
if a == 0x22B5 {
if b == 0x338 {
Some('\u{22ED}')
} else {
None
}
} else {
None
}
} else {
if a == 0x3046 {
if b == 0x3099 {
Some('\u{3094}')
} else {
None
}
} else {
None
}
}
}
} else {
if a < 0x304D {
if a == 0x304B {
if b == 0x3099 {
Some('\u{304C}')
} else {
None
}
} else {
None
}
} else {
if a < 0x304F {
if a == 0x304D {
if b == 0x3099 {
Some('\u{304E}')
} else {
None
}
} else {
None
}
} else {
if a == 0x304F {
if b == 0x3099 {
Some('\u{3050}')
} else {
None
}
} else {
None
}
}
}
}
} else {
if a < 0x3057 {
if a < 0x3053 {
if a == 0x3051 {
if b == 0x3099 {
Some('\u{3052}')
} else {
None
}
} else {
None
}
} else {
if a < 0x3055 {
if a == 0x3053 {
if b == 0x3099 {
Some('\u{3054}')
} else {
None
}
} else {
None
}
} else {
if a == 0x3055 {
if b == 0x3099 {
Some('\u{3056}')
} else {
None
}
} else {
None
}
}
}
} else {
if a < 0x3059 {
if a == 0x3057 {
if b == 0x3099 {
Some('\u{3058}')
} else {
None
}
} else {
None
}
} else {
if a < 0x305B {
if a == 0x3059 {
if b == 0x3099 {
Some('\u{305A}')
} else {
None
}
} else {
None
}
} else {
if a == 0x305B {
if b == 0x3099 {
Some('\u{305C}')
} else {
None
}
} else {
None
}
}
}
}
}
}
}
} else {
if a < 0x30C1 {
if a < 0x30A6 {
if a < 0x306F {
if a < 0x3064 {
if a < 0x305F {
if a == 0x305D {
if b == 0x3099 {
Some('\u{305E}')
} else {
None
}
} else {
None
}
} else {
if a < 0x3061 {
if a == 0x305F {
if b == 0x3099 {
Some('\u{3060}')
} else {
None
}
} else {
None
}
} else {
if a == 0x3061 {
if b == 0x3099 {
Some('\u{3062}')
} else {
None
}
} else {
None
}
}
}
} else {
if a < 0x3066 {
if a == 0x3064 {
if b == 0x3099 {
Some('\u{3065}')
} else {
None
}
} else {
None
}
} else {
if a < 0x3068 {
if a == 0x3066 {
if b == 0x3099 {
Some('\u{3067}')
} else {
None
}
} else {
None
}
} else {
if a == 0x3068 {
if b == 0x3099 {
Some('\u{3069}')
} else {
None
}
} else {
None
}
}
}
}
} else {
if a < 0x3078 {
if a < 0x3072 {
if a == 0x306F {
if b < 0x309A {
if b == 0x3099 {
Some('\u{3070}')
} else {
None
}
} else {
if b == 0x309A {
Some('\u{3071}')
} else {
None
}
}
} else {
None
}
} else {
if a < 0x3075 {
if a == 0x3072 {
if b < 0x309A {
if b == 0x3099 {
Some('\u{3073}')
} else {
None
}
} else {
if b == 0x309A {
Some('\u{3074}')
} else {
None
}
}
} else {
None
}
} else {
if a == 0x3075 {
if b < 0x309A {
if b == 0x3099 {
Some('\u{3076}')
} else {
None
}
} else {
if b == 0x309A {
Some('\u{3077}')
} else {
None
}
}
} else {
None
}
}
}
} else {
if a < 0x307B {
if a == 0x3078 {
if b < 0x309A {
if b == 0x3099 {
Some('\u{3079}')
} else {
None
}
} else {
if b == 0x309A {
Some('\u{307A}')
} else {
None
}
}
} else {
None
}
} else {
if a < 0x309D {
if a == 0x307B {
if b < 0x309A {
if b == 0x3099 {
Some('\u{307C}')
} else {
None
}
} else {
if b == 0x309A {
Some('\u{307D}')
} else {
None
}
}
} else {
None
}
} else {
if a == 0x309D {
if b == 0x3099 {
Some('\u{309E}')
} else {
None
}
} else {
None
}
}
}
}
}
} else {
if a < 0x30B5 {
if a < 0x30AF {
if a < 0x30AB {
if a == 0x30A6 {
if b == 0x3099 {
Some('\u{30F4}')
} else {
None
}
} else {
None
}
} else {
if a < 0x30AD {
if a == 0x30AB {
if b == 0x3099 {
Some('\u{30AC}')
} else {
None
}
} else {
None
}
} else {
if a == 0x30AD {
if b == 0x3099 {
Some('\u{30AE}')
} else {
None
}
} else {
None
}
}
}
} else {
if a < 0x30B1 {
if a == 0x30AF {
if b == 0x3099 {
Some('\u{30B0}')
} else {
None
}
} else {
None
}
} else {
if a < 0x30B3 {
if a == 0x30B1 {
if b == 0x3099 {
Some('\u{30B2}')
} else {
None
}
} else {
None
}
} else {
if a == 0x30B3 {
if b == 0x3099 {
Some('\u{30B4}')
} else {
None
}
} else {
None
}
}
}
}
} else {
if a < 0x30BB {
if a < 0x30B7 {
if a == 0x30B5 {
if b == 0x3099 {
Some('\u{30B6}')
} else {
None
}
} else {
None
}
} else {
if a < 0x30B9 {
if a == 0x30B7 {
if b == 0x3099 {
Some('\u{30B8}')
} else {
None
}
} else {
None
}
} else {
if a == 0x30B9 {
if b == 0x3099 {
Some('\u{30BA}')
} else {
None
}
} else {
None
}
}
}
} else {
if a < 0x30BD {
if a == 0x30BB {
if b == 0x3099 {
Some('\u{30BC}')
} else {
None
}
} else {
None
}
} else {
if a < 0x30BF {
if a == 0x30BD {
if b == 0x3099 {
Some('\u{30BE}')
} else {
None
}
} else {
None
}
} else {
if a == 0x30BF {
if b == 0x3099 {
Some('\u{30C0}')
} else {
None
}
} else {
None
}
}
}
}
}
}
} else {
if a < 0x30F2 {
if a < 0x30D5 {
if a < 0x30C8 {
if a < 0x30C4 {
if a == 0x30C1 {
if b == 0x3099 {
Some('\u{30C2}')
} else {
None
}
} else {
None
}
} else {
if a < 0x30C6 {
if a == 0x30C4 {
if b == 0x3099 {
Some('\u{30C5}')
} else {
None
}
} else {
None
}
} else {
if a == 0x30C6 {
if b == 0x3099 {
Some('\u{30C7}')
} else {
None
}
} else {
None
}
}
}
} else {
if a < 0x30CF {
if a == 0x30C8 {
if b == 0x3099 {
Some('\u{30C9}')
} else {
None
}
} else {
None
}
} else {
if a < 0x30D2 {
if a == 0x30CF {
if b < 0x309A {
if b == 0x3099 {
Some('\u{30D0}')
} else {
None
}
} else {
if b == 0x309A {
Some('\u{30D1}')
} else {
None
}
}
} else {
None
}
} else {
if a == 0x30D2 {
if b < 0x309A {
if b == 0x3099 {
Some('\u{30D3}')
} else {
None
}
} else {
if b == 0x309A {
Some('\u{30D4}')
} else {
None
}
}
} else {
None
}
}
}
}
} else {
if a < 0x30EF {
if a < 0x30D8 {
if a == 0x30D5 {
if b < 0x309A {
if b == 0x3099 {
Some('\u{30D6}')
} else {
None
}
} else {
if b == 0x309A {
Some('\u{30D7}')
} else {
None
}
}
} else {
None
}
} else {
if a < 0x30DB {
if a == 0x30D8 {
if b < 0x309A {
if b == 0x3099 {
Some('\u{30D9}')
} else {
None
}
} else {
if b == 0x309A {
Some('\u{30DA}')
} else {
None
}
}
} else {
None
}
} else {
if a == 0x30DB {
if b < 0x309A {
if b == 0x3099 {
Some('\u{30DC}')
} else {
None
}
} else {
if b == 0x309A {
Some('\u{30DD}')
} else {
None
}
}
} else {
None
}
}
}
} else {
if a < 0x30F0 {
if a == 0x30EF {
if b == 0x3099 {
Some('\u{30F7}')
} else {
None
}
} else {
None
}
} else {
if a < 0x30F1 {
if a == 0x30F0 {
if b == 0x3099 {
Some('\u{30F8}')
} else {
None
}
} else {
None
}
} else {
if a == 0x30F1 {
if b == 0x3099 {
Some('\u{30F9}')
} else {
None
}
} else {
None
}
}
}
}
}
} else {
if a < 0x11132 {
if a < 0x1109B {
if a < 0x30FD {
if a == 0x30F2 {
if b == 0x3099 {
Some('\u{30FA}')
} else {
None
}
} else {
None
}
} else {
if a < 0x11099 {
if a == 0x30FD {
if b == 0x3099 {
Some('\u{30FE}')
} else {
None
}
} else {
None
}
} else {
if a == 0x11099 {
if b == 0x110BA {
Some('\u{1109A}')
} else {
None
}
} else {
None
}
}
}
} else {
if a < 0x110A5 {
if a == 0x1109B {
if b == 0x110BA {
Some('\u{1109C}')
} else {
None
}
} else {
None
}
} else {
if a < 0x11131 {
if a == 0x110A5 {
if b == 0x110BA {
Some('\u{110AB}')
} else {
None
}
} else {
None
}
} else {
if a == 0x11131 {
if b == 0x11127 {
Some('\u{1112E}')
} else {
None
}
} else {
None
}
}
}
}
} else {
if a < 0x115B8 {
if a < 0x11347 {
if a == 0x11132 {
if b == 0x11127 {
Some('\u{1112F}')
} else {
None
}
} else {
None
}
} else {
if a < 0x114B9 {
if a == 0x11347 {
if b < 0x11357 {
if b == 0x1133E {
Some('\u{1134B}')
} else {
None
}
} else {
if b == 0x11357 {
Some('\u{1134C}')
} else {
None
}
}
} else {
None
}
} else {
if a == 0x114B9 {
if b < 0x114BA {
if b == 0x114B0 {
Some('\u{114BC}')
} else {
None
}
} else {
if b < 0x114BD {
if b == 0x114BA {
Some('\u{114BB}')
} else {
None
}
} else {
if b == 0x114BD {
Some('\u{114BE}')
} else {
None
}
}
}
} else {
None
}
}
}
} else {
if a < 0x115B9 {
if a == 0x115B8 {
if b == 0x115AF {
Some('\u{115BA}')
} else {
None
}
} else {
None
}
} else {
if a < 0x11935 {
if a == 0x115B9 {
if b == 0x115AF {
Some('\u{115BB}')
} else {
None
}
} else {
None
}
} else {
if a == 0x11935 {
if b == 0x11930 {
Some('\u{11938}')
} else {
None
}
} else {
None
}
}
}
}
}
}
}
}
}
}
}

} // verus!
