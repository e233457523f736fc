use psp5d::canon_jcs::canonicalize_jcs;
use psp5d::json::JsonValue;

/// Pairs of a text and its Normalization Form C (Unicode 14.0).
fn cases() -> Vec<(&'static str, &'static str)> {
    vec![
        ("\u{108d}\u{45d}\u{61}", "\u{108d}\u{45d}\u{61}"),
        ("\u{41}\u{6f}\u{95f}", "\u{41}\u{6f}\u{92f}\u{93c}"),
        ("\u{b078}\u{35d}\u{301}\u{1e5c}", "\u{b078}\u{301}\u{35d}\u{1e5c}"),
        ("\u{41}\u{327}", "\u{41}\u{327}"),
        ("\u{2241}\u{1e82}\u{11b5}\u{1df2}", "\u{2241}\u{1e82}\u{11b5}\u{1df2}"),
        ("\u{20}", "\u{20}"),
        ("\u{36a}\u{327}\u{ecb}\u{37e}\u{41}", "\u{ecb}\u{327}\u{36a}\u{3b}\u{41}"),
        ("\u{1dc5}\u{301}\u{11bb}\u{308}\u{1174}", "\u{1dc5}\u{301}\u{11bb}\u{308}\u{1174}"),
        ("\u{10a0f}\u{354}", "\u{354}\u{10a0f}"),
        ("\u{11bf}\u{11b9}\u{1109}\u{2f8c1}\u{11442}", "\u{11bf}\u{11b9}\u{1109}\u{63a9}\u{11442}"),
        ("\u{1cf4}\u{ae82}\u{fa2a}", "\u{1cf4}\u{ae82}\u{98ef}"),
        ("\u{11bf}\u{308}\u{ddc}", "\u{11bf}\u{308}\u{ddc}"),
        ("\u{d681}\u{230}\u{11b9}", "\u{d681}\u{230}\u{11b9}"),
        ("\u{d6cb}\u{1102}\u{c2bf}", "\u{d6cb}\u{1102}\u{c2bf}"),
        ("\u{61}\u{afc5}", "\u{61}\u{afc5}"),
        ("\u{1110}\u{135f}", "\u{1110}\u{135f}"),
        ("\u{b128}\u{1b34}\u{cf2a}\u{1111}", "\u{b128}\u{1b34}\u{cf2a}\u{1111}"),
        ("\u{20}\u{c2f6}\u{bac4}\u{355}", "\u{20}\u{c2f6}\u{bac4}\u{355}"),
        ("\u{741}\u{30c}", "\u{741}\u{30c}"),
        ("\u{65}\u{1172}\u{1eba}\u{ce36}", "\u{65}\u{1172}\u{1eba}\u{ce36}"),
        ("\u{327}\u{1110}\u{327}", "\u{327}\u{1110}\u{327}"),
        ("\u{2f95f}\u{301}\u{c588}\u{b2a0}\u{d498}\u{affb}", "\u{7aee}\u{301}\u{c588}\u{b2a0}\u{d498}\u{affb}"),
        ("\u{1fd8}\u{b663}", "\u{1fd8}\u{b663}"),
        ("\u{1106}", "\u{1106}"),
        ("\u{1ed1}", "\u{1ed1}"),
        ("\u{fb4b}\u{41}\u{1fd2}\u{301}\u{a69f}", "\u{5d5}\u{5b9}\u{41}\u{1fd2}\u{301}\u{a69f}"),
        ("\u{11ae}\u{b3dc}\u{2f9e0}", "\u{11ae}\u{b3dc}\u{285d2}"),
        ("\u{caf7}\u{110a}\u{369}\u{116f}", "\u{caf7}\u{110a}\u{369}\u{116f}"),
        ("\u{1dd9}\u{1fc7}\u{300}\u{fe2f}", "\u{1dd9}\u{1fc7}\u{300}\u{fe2f}"),
        ("\u{f9dd}\u{f946}\u{300}\u{d3b}\u{1dea}", "\u{5229}\u{7262}\u{d3b}\u{300}\u{1dea}"),
        ("\u{300}\u{2dfe}\u{1d172}\u{1d188}\u{ba82}", "\u{1d172}\u{300}\u{2dfe}\u{1d188}\u{ba82}"),
        ("\u{308}\u{1103}", "\u{308}\u{1103}"),
        ("\u{11bc}", "\u{11bc}"),
        ("\u{10376}\u{300}\u{c25e}", "\u{10376}\u{300}\u{c25e}"),
        ("\u{2224}\u{22af}\u{b896}", "\u{2224}\u{22af}\u{b896}"),
        ("\u{1ce4}\u{327}\u{2f9bc}", "\u{1ce4}\u{327}\u{8728}"),
        ("\u{110a}\u{2f848}\u{1cde}\u{1ac0}\u{110b}\u{c9a4}", "\u{110a}\u{55ab}\u{1cde}\u{1ac0}\u{110b}\u{c9a4}"),
        ("\u{1ef0}\u{59f}\u{1ed1}\u{308}", "\u{1ef0}\u{59f}\u{1ed1}\u{308}"),
        ("\u{2dfd}\u{308}\u{1161}\u{323}\u{315}\u{1e05}", "\u{2dfd}\u{308}\u{1161}\u{323}\u{315}\u{1e05}"),
        ("\u{1ac0}\u{1d242}\u{31c}\u{1169}\u{11c0}", "\u{1ac0}\u{31c}\u{1d242}\u{1169}\u{11c0}"),
        ("\u{300}\u{11b5}", "\u{300}\u{11b5}"),
        ("\u{fad0}\u{d665}", "\u{22844}\u{d665}"),
        ("\u{301}\u{65}\u{65}\u{323}\u{2f91b}", "\u{301}\u{65}\u{1eb9}\u{20525}"),
        ("\u{41}\u{619}", "\u{41}\u{619}"),
        ("\u{d39f}\u{340}", "\u{d39f}\u{300}"),
        ("\u{323}\u{308}\u{218}", "\u{323}\u{308}\u{218}"),
        ("\u{89a}\u{fa7}", "\u{89a}\u{fa6}\u{fb7}"),
        ("\u{cff3}\u{386}\u{c0d6}\u{323}\u{323}", "\u{cff3}\u{386}\u{c0d6}\u{323}\u{323}"),
        ("\u{11b9}\u{323}", "\u{11b9}\u{323}"),
        ("\u{6f}\u{20}\u{6f}\u{b4c6}", "\u{6f}\u{20}\u{6f}\u{b4c6}"),
        ("\u{2f858}\u{c039}\u{30d3}\u{b0ae}", "\u{58ac}\u{c039}\u{30d3}\u{b0ae}"),
        ("\u{110f}\u{10f4b}", "\u{110f}\u{10f4b}"),
        ("\u{1112}\u{1111}\u{ba0d}\u{2f870}\u{b66b}\u{5c5}", "\u{1112}\u{1111}\u{ba0d}\u{5bf3}\u{b66b}\u{5c5}"),
        ("\u{ccff}\u{c1b4}\u{b887}\u{11a8}\u{1134b}\u{fa8f}", "\u{ccff}\u{c1b4}\u{b887}\u{11a8}\u{1134b}\u{6452}"),
        ("\u{c830}\u{2f837}\u{11c2}\u{20}\u{61}", "\u{c830}\u{53df}\u{11c2}\u{20}\u{61}"),
        ("\u{1e2ef}", "\u{1e2ef}"),
        ("\u{f958}", "\u{83f1}"),
        ("\u{1f5f}\u{1110}\u{d743}", "\u{1f5f}\u{1110}\u{d743}"),
        ("\u{b58f}\u{323}\u{308}", "\u{b58f}\u{323}\u{308}"),
        ("\u{110b}\u{1107}\u{1ab6}\u{f966}\u{a5b}\u{110a}", "\u{110b}\u{1107}\u{1ab6}\u{5fa9}\u{a1c}\u{a3c}\u{110a}"),
        ("\u{344}\u{110f}\u{acbd}\u{11b5}\u{1110}", "\u{308}\u{301}\u{110f}\u{acbd}\u{11b5}\u{1110}"),
        ("\u{6f}", "\u{6f}"),
        ("\u{822}", "\u{822}"),
        ("\u{6dc}", "\u{6dc}"),
        ("\u{1168}\u{11b9}\u{65}", "\u{1168}\u{11b9}\u{65}"),
        ("\u{1102}\u{1104}\u{118}", "\u{1102}\u{1104}\u{118}"),
        ("\u{323}\u{1dd7}\u{bbb9}\u{b2cd}\u{d604}\u{cef0}", "\u{323}\u{1dd7}\u{bbb9}\u{b2cd}\u{d604}\u{cef0}"),
        ("\u{20}\u{73f}\u{1167}\u{1939}", "\u{20}\u{73f}\u{1167}\u{1939}"),
        ("\u{1e74}\u{419}\u{11b7}", "\u{1e74}\u{419}\u{11b7}"),
        ("\u{959}\u{cc61}", "\u{916}\u{93c}\u{cc61}"),
        ("\u{116d}\u{1105}\u{b7dc}\u{82b}\u{ac3b}\u{11ae}", "\u{116d}\u{1105}\u{b7dc}\u{82b}\u{ac3b}\u{11ae}"),
        ("\u{300}\u{323}\u{1169}", "\u{323}\u{300}\u{1169}"),
        ("\u{301}\u{11b0}\u{2f9a9}", "\u{301}\u{11b0}\u{84f3}"),
        ("\u{6f}\u{1dcd}\u{bcc}", "\u{6f}\u{1dcd}\u{bcc}"),
        ("\u{1eb3}\u{d18e}\u{2f85e}", "\u{1eb3}\u{d18e}\u{5922}"),
        ("\u{1174}", "\u{1174}"),
        ("\u{357}\u{323}\u{a92b}\u{301}\u{11bf}\u{8cb}", "\u{323}\u{a92b}\u{357}\u{301}\u{11bf}\u{8cb}"),
        ("\u{65}\u{2f8ef}\u{65}\u{323}\u{41}\u{6f}", "\u{65}\u{6b21}\u{1eb9}\u{41}\u{6f}"),
        ("\u{1d3}", "\u{1d3}"),
        ("\u{110d}\u{c8e3}", "\u{110d}\u{c8e3}"),
        ("\u{11a}\u{6f}\u{bce1}\u{2f960}\u{2fa1d}", "\u{11a}\u{6f}\u{bce1}\u{4202}\u{2a600}"),
        ("\u{3ac}\u{bc23}\u{f958}\u{110b9}\u{740}", "\u{3ac}\u{bc23}\u{83f1}\u{110b9}\u{740}"),
        ("\u{cb9c}\u{b0e9}\u{be63}\u{1fa6}\u{1ec1}\u{116e}", "\u{cb9c}\u{b0e9}\u{be63}\u{1fa6}\u{1ec1}\u{116e}"),
        ("\u{1111}\u{2f9c8}\u{2f9d6}\u{110c}\u{fe20}\u{be9d}", "\u{1111}\u{4635}\u{8d1b}\u{110c}\u{fe20}\u{be9d}"),
        ("\u{20}\u{c9d1}\u{b395}\u{6f}\u{110a}\u{ad1e}", "\u{20}\u{c9d1}\u{b395}\u{6f}\u{110a}\u{ad1e}"),
        ("\u{b0e4}\u{308}\u{11b1}", "\u{b0e4}\u{308}\u{11b1}"),
        ("\u{34c}\u{61}", "\u{34c}\u{61}"),
        ("\u{20}\u{1110}", "\u{20}\u{1110}"),
        ("\u{20}\u{110ab}\u{1dc6}\u{c538}\u{1ef1}", "\u{20}\u{110ab}\u{1dc6}\u{c538}\u{1ef1}"),
        ("\u{d79f}", "\u{d79f}"),
        ("\u{bf53}\u{1a7b}\u{11b0}\u{110f}", "\u{bf53}\u{1a7b}\u{11b0}\u{110f}"),
        ("\u{fa56}\u{11b2}\u{1f9b}", "\u{7bc0}\u{11b2}\u{1f9b}"),
        ("\u{f9bc}\u{11af}\u{2f85a}\u{d1b5}\u{fb3b}\u{bd9c}", "\u{5bee}\u{11af}\u{58f2}\u{d1b5}\u{5db}\u{5bc}\u{bd9c}"),
        ("\u{110d}", "\u{110d}"),
        ("\u{1161}", "\u{1161}"),
        ("\u{11b7}\u{300}", "\u{11b7}\u{300}"),
        ("\u{11b6}\u{2f877}", "\u{11b6}\u{5c60}"),
        ("\u{6f}\u{1fa}\u{c8da}\u{65}\u{11be}", "\u{6f}\u{1fa}\u{c8da}\u{65}\u{11be}"),
        ("\u{65}", "\u{65}"),
        ("\u{c68d}\u{1172}", "\u{c68d}\u{1172}"),
        ("\u{116f}\u{d5fb}\u{8dd}", "\u{116f}\u{d5fb}\u{8dd}"),
        ("\u{301}\u{1f1b}\u{34c}\u{1dc9}", "\u{301}\u{1f1b}\u{34c}\u{1dc9}"),
        ("\u{6f}\u{c14d}\u{c75a}\u{1df9}", "\u{6f}\u{c14d}\u{c75a}\u{1df9}"),
        ("\u{35d}\u{9fe}", "\u{9fe}\u{35d}"),
        ("\u{fa40}\u{eba}\u{1167}\u{2f8ab}\u{c67d}", "\u{61f2}\u{eba}\u{1167}\u{618e}\u{c67d}"),
        ("\u{6f}\u{bd4b}\u{1107}\u{bdc2}\u{300}\u{fe2c}", "\u{6f}\u{bd4b}\u{1107}\u{bdc2}\u{fe2c}\u{300}"),
        ("\u{6f}\u{f96f}\u{f7d}\u{d554}\u{c7a3}", "\u{6f}\u{8aaa}\u{f7d}\u{d554}\u{c7a3}"),
        ("\u{1e6a}\u{2f8de}\u{d194}", "\u{1e6a}\u{3b49}\u{d194}"),
        ("\u{477}\u{cdc8}\u{c8bb}\u{16af1}", "\u{477}\u{cdc8}\u{c8bb}\u{16af1}"),
        ("\u{5bb}", "\u{5bb}"),
        ("\u{61}\u{b170}", "\u{61}\u{b170}"),
        ("\u{c5}\u{742}\u{41}\u{1110}\u{11b7}", "\u{c5}\u{742}\u{41}\u{1110}\u{11b7}"),
        ("\u{1b0c}\u{f9e7}\u{327}\u{f84}\u{116a}\u{41}", "\u{1b0c}\u{88cf}\u{f84}\u{327}\u{116a}\u{41}"),
        ("\u{20}", "\u{20}"),
        ("\u{11a8}\u{1cdb}\u{6f}\u{6f}", "\u{11a8}\u{1cdb}\u{6f}\u{6f}"),
        ("\u{d593}", "\u{d593}"),
        ("\u{128}\u{1dc7}\u{b130}", "\u{128}\u{1dc7}\u{b130}"),
        ("\u{aab7}\u{c3b1}\u{1dc1}", "\u{aab7}\u{c3b1}\u{1dc1}"),
        ("\u{11b5}", "\u{11b5}"),
        ("\u{b8ad}\u{f9c5}\u{61}", "\u{b8ad}\u{6688}\u{61}"),
        ("\u{b8d3}\u{1166}", "\u{b8d3}\u{1166}"),
        ("\u{ba2c}\u{1173}", "\u{ba2c}\u{1173}"),
        ("\u{308}", "\u{308}"),
        ("\u{738}\u{c6b0}\u{1ebd}\u{af7a}\u{318}", "\u{738}\u{c6b0}\u{1ebd}\u{af7a}\u{318}"),
        ("\u{1a7a}\u{22e}\u{1039}\u{c01b}\u{4ef}", "\u{1a7a}\u{22e}\u{1039}\u{c01b}\u{4ef}"),
        ("\u{1166}\u{a8ed}", "\u{1166}\u{a8ed}"),
        ("\u{ae0a}\u{11b0}\u{11aa}\u{b6d5}\u{cc}", "\u{ae0a}\u{11b0}\u{11aa}\u{b6d5}\u{cc}"),
        ("\u{110a}", "\u{110a}"),
        ("\u{b3ea}\u{6f}\u{c2d3}", "\u{b3ea}\u{6f}\u{c2d3}"),
        ("\u{b19d}\u{2f9a4}\u{ecb}", "\u{b19d}\u{26c36}\u{ecb}"),
        ("\u{b85a}\u{11ae}\u{adf0}\u{bbdf}\u{ae9a}", "\u{b85a}\u{11ae}\u{adf0}\u{bbdf}\u{ae9a}"),
        ("\u{2f97d}\u{341}\u{1166}\u{fa93}", "\u{8060}\u{301}\u{1166}\u{671b}"),
        ("\u{11aa}\u{41}\u{11a8}", "\u{11aa}\u{41}\u{11a8}"),
        ("\u{1100}\u{61}\u{3071}", "\u{1100}\u{61}\u{3071}"),
        ("\u{c9ce}", "\u{c9ce}"),
        ("\u{11b7}\u{b47e}\u{b7b5}\u{f9f3}", "\u{11b7}\u{b47e}\u{b7b5}\u{9e9f}"),
        ("\u{2df8}\u{8f9}\u{11ba}\u{110a}\u{6f}\u{b63c}", "\u{8f9}\u{2df8}\u{11ba}\u{110a}\u{6f}\u{b63c}"),
        ("\u{b024}\u{2f9c6}", "\u{b024}\u{88d7}"),
        ("\u{300}\u{1ab7}\u{45c}\u{110a}\u{363}", "\u{1ab7}\u{300}\u{45c}\u{110a}\u{363}"),
        ("\u{c89b}\u{743}\u{1a7b}\u{d3b3}", "\u{c89b}\u{743}\u{1a7b}\u{d3b3}"),
        ("\u{11368}\u{61}\u{1173}\u{1170}\u{116e}\u{1167}", "\u{11368}\u{61}\u{1173}\u{1170}\u{116e}\u{1167}"),
        ("\u{657}\u{745}\u{89f}\u{6f}", "\u{657}\u{745}\u{89f}\u{6f}"),
        ("\u{2f867}\u{116d}\u{323}", "\u{36ee}\u{116d}\u{323}"),
        ("\u{2f97d}\u{1e04}", "\u{8060}\u{1e04}"),
        ("\u{baca}", "\u{baca}"),
        ("\u{1105}\u{116b}\u{1fe}\u{2df1}", "\u{b894}\u{1fe}\u{2df1}"),
        ("\u{34c}\u{11c1}\u{1b34}\u{20}\u{1e12}", "\u{34c}\u{11c1}\u{1b34}\u{20}\u{1e12}"),
        ("\u{327}\u{1169}\u{1d162}\u{1112}\u{1fc1}\u{1104}", "\u{327}\u{1169}\u{1d158}\u{1d165}\u{1d170}\u{1112}\u{1fc1}\u{1104}"),
        ("\u{1d185}\u{fa61}\u{d769}\u{1165}\u{20}", "\u{1d185}\u{8996}\u{d769}\u{1165}\u{20}"),
        ("\u{320}", "\u{320}"),
        ("\u{308}\u{2f898}\u{2f864}\u{65}", "\u{308}\u{261da}\u{5a27}\u{65}"),
        ("\u{61}\u{135f}\u{11b4}\u{1175}\u{af49}\u{11ad}", "\u{61}\u{135f}\u{11b4}\u{1175}\u{af49}\u{11ad}"),
        ("\u{ad2a}\u{1167}\u{c5eb}\u{306}", "\u{ad2a}\u{1167}\u{c5eb}\u{306}"),
        ("\u{1ab4}\u{bca}\u{d0fa}\u{11ba}", "\u{1ab4}\u{bca}\u{d0fa}\u{11ba}"),
        ("\u{30f}\u{1ead}", "\u{30f}\u{1ead}"),
        ("\u{b1b2}\u{327}\u{11c0}\u{5b2}\u{1172}\u{1dde}", "\u{b1b2}\u{327}\u{11c0}\u{5b2}\u{1172}\u{1dde}"),
        ("\u{1e1e}\u{cb64}", "\u{1e1e}\u{cb64}"),
        ("\u{1110}\u{2f9ca}", "\u{1110}\u{34bb}"),
        ("\u{2f845}\u{1ef6}\u{3099}", "\u{5584}\u{1ef6}\u{3099}"),
        ("\u{6f}\u{b7b5}\u{6f}\u{2f876}", "\u{6f}\u{b7b5}\u{6f}\u{3781}"),
        ("\u{f7c}\u{110f}\u{7f0}\u{32a}\u{41}", "\u{f7c}\u{110f}\u{32a}\u{7f0}\u{41}"),
        ("\u{110f}\u{d25e}\u{cf34}\u{11b5}\u{116d}\u{c4e8}", "\u{110f}\u{d25e}\u{cf34}\u{11b5}\u{116d}\u{c4e8}"),
        ("\u{11b9}\u{308}\u{317}\u{2f9e5}\u{bb0e}\u{d396}", "\u{11b9}\u{317}\u{308}\u{2872e}\u{bb0e}\u{d396}"),
        ("\u{1d17e}\u{c59f}\u{3b0}\u{dca}", "\u{1d17e}\u{c59f}\u{3b0}\u{dca}"),
        ("\u{110b}\u{cc47}\u{41}\u{1e76}", "\u{110b}\u{cc47}\u{41}\u{1e76}"),
        ("\u{11c1}", "\u{11c1}"),
        ("\u{2f81c}", "\u{291df}"),
        ("\u{31a}\u{1e21}\u{5a3}\u{be6c}\u{fe2b}\u{343}", "\u{31a}\u{1e21}\u{5a3}\u{be6c}\u{fe2b}\u{313}"),
        ("\u{20}\u{8f5}\u{20}", "\u{20}\u{8f5}\u{20}"),
        ("\u{819}\u{308}\u{2de9}\u{11c0}", "\u{819}\u{308}\u{2de9}\u{11c0}"),
        ("\u{11af}\u{1fa8}", "\u{11af}\u{1fa8}"),
        ("\u{b651}\u{11a9}", "\u{b651}\u{11a9}"),
        ("\u{16b36}\u{110e}\u{41}\u{11b9}", "\u{16b36}\u{110e}\u{41}\u{11b9}"),
        ("\u{327}\u{f921}\u{301}\u{116f}\u{c39c}", "\u{327}\u{5d50}\u{301}\u{116f}\u{c39c}"),
        ("\u{e38}\u{110a}\u{bab9}\u{302b}\u{f9d6}", "\u{e38}\u{110a}\u{bab9}\u{302b}\u{6dea}"),
        ("\u{1175}\u{300}\u{168}\u{5b5}\u{11b7}", "\u{1175}\u{300}\u{168}\u{5b5}\u{11b7}"),
        ("\u{300}\u{1e7d}\u{ba8b}\u{41}", "\u{300}\u{1e7d}\u{ba8b}\u{41}"),
        ("\u{cb}", "\u{cb}"),
        ("\u{1174}\u{fb2b}\u{6f}\u{d159}\u{1111}", "\u{1174}\u{5e9}\u{5c2}\u{6f}\u{d159}\u{1111}"),
        ("\u{11bc}\u{5a6}", "\u{11bc}\u{5a6}"),
        ("\u{10d26}", "\u{10d26}"),
        ("\u{b221}\u{1eb6}", "\u{b221}\u{1eb6}"),
        ("\u{11b3}\u{1101}\u{fac1}\u{327}\u{d285}\u{308}", "\u{11b3}\u{1101}\u{8d08}\u{327}\u{d285}\u{308}"),
        ("\u{300}\u{340}", "\u{300}\u{300}"),
        ("\u{2f88f}\u{747}\u{33b}\u{fc}\u{323}", "\u{2a392}\u{33b}\u{747}\u{1ee5}\u{308}"),
        ("\u{5ae}\u{b8c4}\u{327}\u{301}\u{65}\u{20}", "\u{5ae}\u{b8c4}\u{327}\u{301}\u{65}\u{20}"),
        ("\u{1106}", "\u{1106}"),
        ("\u{ce75}\u{2f811}\u{c9c6}\u{2f94e}\u{73b}\u{f947}", "\u{ce75}\u{5177}\u{c9c6}\u{784e}\u{73b}\u{78ca}"),
        ("\u{1e59}\u{116f}", "\u{1e59}\u{116f}"),
        ("\u{f95a}\u{301}\u{20}\u{1169}\u{109}\u{820}", "\u{8b80}\u{301}\u{20}\u{1169}\u{109}\u{820}"),
        ("\u{5c2}\u{1166}", "\u{5c2}\u{1166}"),
        ("\u{116c}\u{d45d}\u{308}\u{cdf5}", "\u{116c}\u{d45d}\u{308}\u{cdf5}"),
        ("\u{143}\u{baf7}\u{20}\u{fc6}\u{327}\u{1f2e}", "\u{143}\u{baf7}\u{20}\u{327}\u{fc6}\u{1f2e}"),
        ("\u{145}\u{1e15}", "\u{145}\u{1e15}"),
        ("\u{abc}\u{10a39}\u{15a}\u{1e97}\u{3cc}", "\u{10a39}\u{abc}\u{15a}\u{1e97}\u{3cc}"),
        ("\u{3ab}\u{300}\u{1d188}\u{61}\u{b2da}\u{6e2}", "\u{3ab}\u{300}\u{1d188}\u{61}\u{b2da}\u{6e2}"),
        ("\u{168}\u{a33}", "\u{168}\u{a32}\u{a3c}"),
        ("\u{11bd}\u{1e80}\u{1fc6}\u{11a8}\u{11b6}\u{1102}", "\u{11bd}\u{1e80}\u{1fc6}\u{11a8}\u{11b6}\u{1102}"),
        ("\u{1172}\u{1d15f}\u{11c0}", "\u{1172}\u{1d158}\u{1d165}\u{11c0}"),
        ("\u{1103}\u{adff}\u{cd31}\u{fab3}", "\u{1103}\u{adff}\u{cd31}\u{8352}"),
        ("\u{1ffc}\u{f9b1}\u{1ac2}\u{1fb6}", "\u{1ffc}\u{9234}\u{1ac2}\u{1fb6}"),
        ("\u{d3}\u{11be}\u{2f9ee}", "\u{d3}\u{11be}\u{958b}"),
        ("\u{1dc3}\u{300}\u{20}\u{65}\u{1169}\u{1dc7}", "\u{1dc3}\u{300}\u{20}\u{65}\u{1169}\u{1dc7}"),
        ("\u{4f5}\u{cfeb}", "\u{4f5}\u{cfeb}"),
        ("\u{11ad}", "\u{11ad}"),
        ("\u{c541}", "\u{c541}"),
        ("\u{2f8d2}\u{2f804}\u{8df}\u{11b6}\u{323}\u{f72}", "\u{5192}\u{4f60}\u{8df}\u{11b6}\u{f72}\u{323}"),
        ("\u{1bab}\u{1de9}\u{327}\u{faba}\u{300}\u{65}", "\u{1bab}\u{327}\u{1de9}\u{8af8}\u{300}\u{65}"),
        ("\u{300}\u{1bf3}\u{bc76}\u{6f}", "\u{1bf3}\u{300}\u{bc76}\u{6f}"),
        ("\u{11bb}\u{1dd0}", "\u{11bb}\u{1dd0}"),
        ("\u{1174}\u{65}", "\u{1174}\u{65}"),
        ("\u{7f1}\u{11c2}\u{1162}\u{8f9}\u{81e}\u{1f0e}", "\u{7f1}\u{11c2}\u{1162}\u{8f9}\u{81e}\u{1f0e}"),
        ("\u{1f9a}\u{b5a9}\u{16ff1}\u{1174}\u{bd86}\u{483}", "\u{1f9a}\u{b5a9}\u{16ff1}\u{1174}\u{bd86}\u{483}"),
        ("\u{f997}\u{1e945}\u{c9b0}\u{fd}\u{c7f0}\u{1dc9}", "\u{806f}\u{1e945}\u{c9b0}\u{fd}\u{c7f0}\u{1dc9}"),
        ("\u{11bb}\u{1eaa}\u{11b3}\u{30dd}\u{d0bc}\u{301}", "\u{11bb}\u{1eaa}\u{11b3}\u{30dd}\u{d0bc}\u{301}"),
        ("\u{6f}\u{a8e1}", "\u{6f}\u{a8e1}"),
        ("\u{c7ae}", "\u{c7ae}"),
        ("\u{110c}\u{bb83}\u{d44b}", "\u{110c}\u{bb83}\u{d44b}"),
        ("\u{11b6}\u{c921}", "\u{11b6}\u{c921}"),
        ("\u{301}", "\u{301}"),
        ("\u{a8ef}\u{1101}\u{cb59}\u{17a}\u{1169}", "\u{a8ef}\u{1101}\u{cb59}\u{17a}\u{1169}"),
        ("\u{1ddc}\u{110c}", "\u{1ddc}\u{110c}"),
        ("\u{cea0}\u{10f4c}\u{ccc7}\u{1d1bd}\u{300}", "\u{cea0}\u{10f4c}\u{ccc7}\u{1d1b9}\u{1d165}\u{1d16e}\u{300}"),
        ("\u{b972}\u{1037}\u{61}\u{300}", "\u{b972}\u{1037}\u{e0}"),
        ("\u{f923}\u{11b0}\u{afef}\u{4d7}\u{c6ea}\u{116f}", "\u{85cd}\u{11b0}\u{afef}\u{4d7}\u{c6ea}\u{116f}"),
        ("\u{8df}", "\u{8df}"),
        ("\u{cdbb}\u{1d16d}\u{c993}\u{611}\u{11c3f}\u{1f91}", "\u{cdbb}\u{1d16d}\u{c993}\u{11c3f}\u{611}\u{1f91}"),
        ("\u{6f}\u{c56}\u{c9f5}\u{1110}", "\u{6f}\u{c56}\u{c9f5}\u{1110}"),
        ("\u{116b}\u{11b0}\u{11b6}\u{1ce3}", "\u{116b}\u{11b0}\u{11b6}\u{1ce3}"),
        ("\u{11ad}", "\u{11ad}"),
        ("\u{11a9}\u{cb08}", "\u{11a9}\u{cb08}"),
        ("\u{61}\u{1161}\u{11b1}\u{95c}", "\u{61}\u{1161}\u{11b1}\u{921}\u{93c}"),
        ("\u{1111}\u{300}\u{41}\u{1fdd}\u{f9c9}", "\u{1111}\u{300}\u{41}\u{1fdd}\u{67f3}"),
        ("\u{61}\u{65}\u{657}", "\u{61}\u{65}\u{657}"),
        ("\u{1161}\u{17dd}\u{65}\u{327}", "\u{1161}\u{17dd}\u{229}"),
        ("\u{20}", "\u{20}"),
        ("\u{b9a3}\u{61}", "\u{b9a3}\u{61}"),
        ("\u{d6f5}\u{1e46}\u{11b5}\u{1d243}\u{1cd9}\u{cfa9}", "\u{d6f5}\u{1e46}\u{11b5}\u{1cd9}\u{1d243}\u{cfa9}"),
        ("\u{c9e4}", "\u{c9e4}"),
        ("\u{bbc7}\u{b689}", "\u{bbc7}\u{b689}"),
        ("\u{41}\u{1e00d}\u{11bb}\u{308}\u{11bb}", "\u{41}\u{1e00d}\u{11bb}\u{308}\u{11bb}"),
        ("\u{c6cd}\u{1f57}\u{1103}", "\u{c6cd}\u{1f57}\u{1103}"),
        ("\u{41}", "\u{41}"),
        ("\u{110c}\u{308}\u{b53f}\u{1feb}\u{d404}\u{953}", "\u{110c}\u{308}\u{b53f}\u{38e}\u{d404}\u{953}"),
        ("\u{11ab}", "\u{11ab}"),
        ("\u{323}\u{8cb}\u{c1e2}\u{bc19}", "\u{323}\u{8cb}\u{c1e2}\u{bc19}"),
        ("\u{f9b9}\u{11ad}\u{c5d6}\u{11c0}\u{11c0}", "\u{60e1}\u{11ad}\u{c5d6}\u{11c0}\u{11c0}"),
        ("\u{a8ef}\u{b38c}\u{1166}", "\u{a8ef}\u{b38c}\u{1166}"),
        ("\u{1110}\u{61}\u{2f872}", "\u{1110}\u{61}\u{5bff}"),
        ("\u{301}\u{327}\u{2f871}\u{110d}\u{1e9}\u{1d1aa}", "\u{327}\u{301}\u{21b18}\u{110d}\u{1e9}\u{1d1aa}"),
        ("\u{41}\u{323}\u{301}\u{65}", "\u{1ea0}\u{301}\u{65}"),
        ("\u{61}\u{328}\u{d404}\u{368}\u{1e134}\u{2f8cf}", "\u{105}\u{d404}\u{368}\u{1e134}\u{6691}"),
        ("\u{1d162}", "\u{1d158}\u{1d165}\u{1d170}"),
        ("\u{116f}\u{1165}", "\u{116f}\u{1165}"),
        ("\u{fa3d}\u{2f8f5}\u{327}\u{2fa07}", "\u{6094}\u{6bba}\u{327}\u{99fe}"),
        ("\u{41}\u{2f8cd}\u{301}\u{b04d}\u{2f842}", "\u{41}\u{6649}\u{301}\u{b04d}\u{5510}"),
        ("\u{65}\u{c665}\u{61}\u{2f99f}\u{5b8}", "\u{65}\u{c665}\u{61}\u{8457}\u{5b8}"),
        ("\u{2f8e5}\u{ed}\u{a5a}\u{1e134}\u{1e71}\u{ad23}", "\u{681f}\u{ed}\u{a17}\u{a3c}\u{1e134}\u{1e71}\u{ad23}"),
        ("\u{6f}\u{b7fe}\u{1134b}", "\u{6f}\u{b7fe}\u{1134b}"),
        ("\u{110ba}\u{f9c9}\u{308}\u{d6d9}\u{1106}\u{f6}", "\u{110ba}\u{67f3}\u{308}\u{d6d9}\u{1106}\u{f6}"),
        ("\u{4f0}", "\u{4f0}"),
        ("\u{1175}\u{65}\u{d2f9}\u{fa34}", "\u{1175}\u{65}\u{d2f9}\u{52e4}"),
        ("\u{308}\u{d751}\u{5b1}", "\u{308}\u{d751}\u{5b1}"),
        ("\u{1162}", "\u{1162}"),
        ("\u{ca86}\u{c8f9}\u{11aa}\u{1171}\u{fa77}\u{41}", "\u{ca86}\u{c8f9}\u{11aa}\u{1171}\u{52fa}\u{41}"),
        ("\u{20}\u{301}", "\u{20}\u{301}"),
        ("\u{c4ca}\u{d283}", "\u{c4ca}\u{d283}"),
        ("\u{be21}\u{fa49}", "\u{be21}\u{722b}"),
        ("\u{11b6}\u{2de3}\u{f9b6}", "\u{11b6}\u{2de3}\u{79ae}"),
        ("\u{65}\u{11bf}", "\u{65}\u{11bf}"),
        ("\u{61}\u{323}\u{c46e}", "\u{1ea1}\u{c46e}"),
        ("\u{8e6}\u{41}", "\u{8e6}\u{41}"),
        ("\u{c9c7}\u{819}\u{41}\u{c96c}\u{61}\u{300}", "\u{c9c7}\u{819}\u{41}\u{c96c}\u{e0}"),
        ("\u{135f}", "\u{135f}"),
        ("\u{20}\u{300}\u{cc65}\u{6f}\u{6ec}", "\u{20}\u{300}\u{cc65}\u{6f}\u{6ec}"),
        ("\u{1f59}\u{11ae}", "\u{1f59}\u{11ae}"),
        ("\u{300}\u{cd1a}\u{7f0}\u{2f9f5}\u{110d}", "\u{300}\u{cd1a}\u{7f0}\u{9723}\u{110d}"),
        ("\u{b13b}\u{8ed}\u{41}", "\u{b13b}\u{8ed}\u{41}"),
        ("\u{11c2}\u{41}\u{165}", "\u{11c2}\u{41}\u{165}"),
        ("\u{308}\u{327}", "\u{327}\u{308}"),
        ("\u{1171}\u{b237}", "\u{1171}\u{b237}"),
        ("\u{327}\u{819}\u{fa92}\u{652}", "\u{327}\u{819}\u{6717}\u{652}"),
        ("\u{147}\u{16c}\u{300}\u{cb28}", "\u{147}\u{16c}\u{300}\u{cb28}"),
        ("\u{301}", "\u{301}"),
        ("\u{f936}", "\u{865c}"),
        ("\u{6f}\u{2f85b}\u{1b34}", "\u{6f}\u{58f7}\u{1b34}"),
        ("\u{116c}\u{619}", "\u{116c}\u{619}"),
        ("\u{11ad}", "\u{11ad}"),
        ("\u{41}", "\u{41}"),
        ("\u{11c1}", "\u{11c1}"),
        ("\u{af91}\u{1eb7}\u{1100}\u{fe22}\u{11b8}\u{2f999}", "\u{af91}\u{1eb7}\u{1100}\u{fe22}\u{11b8}\u{831d}"),
        ("\u{116e}\u{b3f1}\u{11bd}", "\u{116e}\u{b3f1}\u{11bd}"),
        ("\u{1ac7}\u{1d17b}\u{fe22}\u{2f98d}", "\u{1d17b}\u{1ac7}\u{fe22}\u{8f9e}"),
        ("\u{1d168}\u{1ee8}\u{350}\u{300}\u{11d42}\u{b235}", "\u{1d168}\u{1ee8}\u{11d42}\u{350}\u{300}\u{b235}"),
        ("\u{4d7}\u{c1be}\u{116b}\u{b366}", "\u{4d7}\u{c1be}\u{116b}\u{b366}"),
        ("\u{1112}\u{116a}\u{1f56}\u{cf6a}\u{1ac5}\u{827}", "\u{d654}\u{1f56}\u{cf6a}\u{1ac5}\u{827}"),
        ("\u{bbca}\u{31a}\u{1173}\u{1163}", "\u{bbca}\u{31a}\u{1173}\u{1163}"),
        ("\u{b2fd}\u{11ba}\u{b34e}", "\u{b2fd}\u{11ba}\u{b34e}"),
        ("\u{41}\u{20d6}", "\u{41}\u{20d6}"),
        ("\u{110f}\u{1167}\u{11b7}\u{116c}", "\u{cf2c}\u{116c}"),
        ("\u{2f84f}\u{11b5}", "\u{5674}\u{11b5}"),
        ("\u{f9cb}\u{a8e0}", "\u{6e9c}\u{a8e0}"),
        ("\u{cc7f}", "\u{cc7f}"),
        ("\u{65}\u{ac1f}\u{20}", "\u{65}\u{ac1f}\u{20}"),
        ("\u{11b7}\u{2f89c}", "\u{11b7}\u{5f9a}"),
        ("\u{1165}\u{1e010}", "\u{1165}\u{1e010}"),
        ("\u{6f}\u{6d7}", "\u{6f}\u{6d7}"),
        ("\u{a33}\u{308}\u{1164}\u{5a9}\u{6f}", "\u{a32}\u{a3c}\u{308}\u{1164}\u{5a9}\u{6f}"),
        ("\u{1167}\u{3ab}\u{301}\u{fab6}\u{1172}", "\u{1167}\u{3ab}\u{301}\u{8941}\u{1172}"),
        ("\u{b1c7}\u{2f89e}\u{b487}\u{116d}\u{20d9}\u{1104}", "\u{b1c7}\u{5fd7}\u{b487}\u{116d}\u{20d9}\u{1104}"),
        ("\u{1100}\u{11c2}", "\u{1100}\u{11c2}"),
        ("\u{61}\u{fb2a}\u{1d187}\u{11b0}", "\u{61}\u{5e9}\u{5c1}\u{1d187}\u{11b0}"),
        ("\u{f9c3}\u{2f9fb}\u{ccda}\u{1e87}\u{30fa}", "\u{907c}\u{2940a}\u{ccda}\u{1e87}\u{30fa}"),
        ("\u{302e}", "\u{302e}"),
        ("\u{36a}\u{116e}", "\u{36a}\u{116e}"),
        ("\u{11c}\u{1f99}\u{1102}\u{327}\u{cd77}", "\u{11c}\u{1f99}\u{1102}\u{327}\u{cd77}"),
        ("\u{b295}\u{110c}", "\u{b295}\u{110c}"),
        ("\u{32e}\u{110f}\u{cb97}\u{323}\u{110e}\u{1e52}", "\u{32e}\u{110f}\u{cb97}\u{323}\u{110e}\u{1e52}"),
        ("\u{1df3}\u{6f}\u{5b3}\u{308}", "\u{1df3}\u{f6}\u{5b3}"),
        ("\u{b684}\u{2f849}\u{d235}\u{323}\u{2f865}\u{fb49}", "\u{b684}\u{55b3}\u{d235}\u{323}\u{59d8}\u{5e9}\u{5bc}"),
        ("\u{bb62}\u{11b7}\u{300}", "\u{bb62}\u{11b7}\u{300}"),
        ("\u{41}\u{11c2}\u{fe25}\u{116d}", "\u{41}\u{11c2}\u{fe25}\u{116d}"),
        ("\u{fb4e}\u{1f77}\u{fa55}\u{b8d9}", "\u{5e4}\u{5bf}\u{3af}\u{7a81}\u{b8d9}"),
        ("\u{2285}\u{1ab1}\u{c909}\u{1b0}\u{f959}", "\u{2285}\u{1ab1}\u{c909}\u{1b0}\u{9675}"),
        ("\u{20}\u{41}\u{61}\u{110f}\u{41}\u{bb25}", "\u{20}\u{41}\u{61}\u{110f}\u{41}\u{bb25}"),
        ("\u{110e}", "\u{110e}"),
        ("\u{1163}\u{22f}\u{323}", "\u{1163}\u{1ecd}\u{307}"),
        ("\u{2f987}\u{323}\u{1ac6}", "\u{267a7}\u{323}\u{1ac6}"),
        ("\u{65}", "\u{65}"),
        ("\u{d0f3}\u{1171}\u{11173}", "\u{d0f3}\u{1171}\u{11173}"),
        ("\u{20}", "\u{20}"),
        ("\u{327}\u{a8ea}\u{b8e0}\u{300}", "\u{327}\u{a8ea}\u{b8e0}\u{300}"),
        ("\u{20}\u{308}\u{bfdf}\u{30dd}", "\u{20}\u{308}\u{bfdf}\u{30dd}"),
        ("\u{65a}\u{323}\u{d17b}", "\u{323}\u{65a}\u{d17b}"),
        ("\u{facb}\u{1e027}\u{8f5}\u{300}", "\u{980b}\u{1e027}\u{8f5}\u{300}"),
        ("\u{1172}\u{8d7}\u{128}\u{1dfd}", "\u{1172}\u{8d7}\u{128}\u{1dfd}"),
        ("\u{300}", "\u{300}"),
        ("\u{2f845}\u{c2a9}\u{2284}\u{1a7b}", "\u{5584}\u{c2a9}\u{2284}\u{1a7b}"),
        ("\u{1111}\u{302c}\u{20}", "\u{1111}\u{302c}\u{20}"),
        ("\u{2f9ab}\u{1110}\u{b29d}\u{2f8a2}\u{327}", "\u{273ca}\u{1110}\u{b29d}\u{391c}\u{327}"),
        ("\u{c570}", "\u{c570}"),
        ("\u{1a7c}\u{110e}\u{c8f2}\u{be6f}\u{1173}", "\u{1a7c}\u{110e}\u{c8f2}\u{be6f}\u{1173}"),
        ("\u{cdab}\u{327}\u{d57c}", "\u{cdab}\u{327}\u{d57c}"),
        ("\u{2fa0f}\u{c86b}\u{1165}", "\u{9d67}\u{c86b}\u{1165}"),
        ("\u{1112}\u{d0d3}\u{d138}\u{35b}\u{11a9}", "\u{1112}\u{d0d3}\u{d138}\u{35b}\u{11a9}"),
        ("\u{8f7}\u{1ab7}\u{13b}\u{f933}\u{308}", "\u{1ab7}\u{8f7}\u{13b}\u{76e7}\u{308}"),
        ("\u{20}\u{327}\u{cd1d}", "\u{20}\u{327}\u{cd1d}"),
        ("\u{c4ed}\u{c2e4}\u{fac5}\u{acaa}\u{232a}", "\u{c4ed}\u{c2e4}\u{9276}\u{acaa}\u{3009}"),
        ("\u{c3f6}", "\u{c3f6}"),
        ("\u{d581}\u{327}\u{1e8d2}\u{1ab2}\u{c5b4}", "\u{d581}\u{327}\u{1e8d2}\u{1ab2}\u{c5b4}"),
        ("\u{327}\u{110b}\u{e48}\u{11ae}", "\u{327}\u{110b}\u{e48}\u{11ae}"),
        ("\u{11c1}", "\u{11c1}"),
        ("\u{f9d0}\u{11c1}", "\u{985e}\u{11c1}"),
        ("\u{1de1}\u{11c1}\u{1dce}\u{1a77}", "\u{1de1}\u{11c1}\u{1dce}\u{1a77}"),
        ("\u{1e15}\u{1105}", "\u{1e15}\u{1105}"),
        ("\u{acaf}\u{fa01}\u{41}\u{11b2}\u{10a}\u{1f9f}", "\u{acaf}\u{5ea6}\u{41}\u{11b2}\u{10a}\u{1f9f}"),
        ("\u{cf68}\u{20}", "\u{cf68}\u{20}"),
        ("\u{323}\u{20ec}\u{1a75}\u{61}\u{5bd}\u{323}", "\u{323}\u{20ec}\u{1a75}\u{1ea1}\u{5bd}"),
        ("\u{1b3b}", "\u{1b3b}"),
        ("\u{1de0}", "\u{1de0}"),
        ("\u{d33b}\u{aff9}\u{fa4f}\u{10f4a}", "\u{d33b}\u{aff9}\u{7950}\u{10f4a}"),
        ("\u{1171}\u{321}", "\u{1171}\u{321}"),
        ("\u{385}\u{1166}\u{d3ef}", "\u{385}\u{1166}\u{d3ef}"),
        ("\u{20f}\u{1e94a}\u{d14a}\u{2f919}", "\u{20f}\u{1e94a}\u{d14a}\u{7077}"),
        ("\u{6f}", "\u{6f}"),
        ("\u{32d}\u{2de4}", "\u{32d}\u{2de4}"),
        ("\u{1100}\u{bf6f}", "\u{1100}\u{bf6f}"),
        ("\u{20}\u{b052}\u{fe22}\u{d731}", "\u{20}\u{b052}\u{fe22}\u{d731}"),
        ("\u{6f}\u{bfc9}\u{cb00}\u{30f9}\u{1f36}\u{d4d}", "\u{6f}\u{bfc9}\u{cb00}\u{30f9}\u{1f36}\u{d4d}"),
        ("\u{307}\u{11b2}\u{300}\u{fa83}", "\u{307}\u{11b2}\u{300}\u{5ed9}"),
        ("\u{c17f}\u{d5ae}\u{1e59}\u{c27a}\u{6f}", "\u{c17f}\u{d5ae}\u{1e59}\u{c27a}\u{6f}"),
        ("\u{1cd2}\u{11ac}\u{1ac2}\u{f990}", "\u{1cd2}\u{11ac}\u{1ac2}\u{6200}"),
        ("\u{fa9d}\u{7eb}\u{35f}\u{82c}\u{65}\u{308}", "\u{77a7}\u{7eb}\u{82c}\u{35f}\u{eb}"),
        ("\u{5c2}\u{11ad}\u{10f82}\u{c41f}", "\u{5c2}\u{11ad}\u{10f82}\u{c41f}"),
        ("\u{6f}\u{11bc}\u{6f}\u{1e021}\u{d738}\u{10d25}", "\u{6f}\u{11bc}\u{6f}\u{1e021}\u{d738}\u{10d25}"),
        ("\u{308}\u{300}\u{6f}", "\u{308}\u{300}\u{6f}"),
        ("\u{323}\u{59d}\u{cc0}\u{20}", "\u{323}\u{59d}\u{cc0}\u{20}"),
        ("\u{add6}\u{65}\u{1101}\u{b181}\u{11a99}\u{8f2}", "\u{add6}\u{65}\u{1101}\u{b181}\u{11a99}\u{8f2}"),
        ("\u{3cd}\u{300}", "\u{3cd}\u{300}"),
        ("\u{1166}\u{fa18}\u{22ad}\u{1110}\u{be12}", "\u{1166}\u{793c}\u{22ad}\u{1110}\u{be12}"),
        ("\u{c9b9}\u{89a}\u{31e}", "\u{c9b9}\u{89a}\u{31e}"),
        ("\u{11b4}\u{2f977}\u{1e014}", "\u{11b4}\u{2633e}\u{1e014}"),
        ("\u{110c}\u{8d3}\u{f96e}\u{6f}", "\u{110c}\u{8d3}\u{8449}\u{6f}"),
        ("\u{2f88a}\u{1f03}\u{b8ad}\u{1161}\u{ae82}\u{20}", "\u{387c}\u{1f03}\u{b8ad}\u{1161}\u{ae82}\u{20}"),
        ("\u{20db}\u{20e7}\u{cd54}\u{11b7}\u{300}\u{1e2b}", "\u{20db}\u{20e7}\u{cd54}\u{11b7}\u{300}\u{1e2b}"),
        ("\u{1105}\u{327}\u{f902}\u{176}\u{1168}\u{110b}", "\u{1105}\u{327}\u{8eca}\u{176}\u{1168}\u{110b}"),
        ("\u{d361}\u{89e}\u{61}\u{11b6}", "\u{d361}\u{89e}\u{61}\u{11b6}"),
        ("\u{11c0}\u{cc8d}\u{1fca}\u{d714}", "\u{11c0}\u{cc8d}\u{1fca}\u{d714}"),
        ("\u{1cf8}\u{32c}\u{20}\u{1df8}\u{11d97}", "\u{32c}\u{1cf8}\u{20}\u{11d97}\u{1df8}"),
        ("\u{1df5}\u{116d}\u{1f20}\u{11ac}\u{b1ec}\u{a6f1}", "\u{1df5}\u{116d}\u{1f20}\u{11ac}\u{b1ec}\u{a6f1}"),
        ("\u{5a8}\u{d6e6}\u{bb39}", "\u{5a8}\u{d6e6}\u{bb39}"),
        ("\u{306}\u{308}\u{a8e1}\u{1174}\u{1e944}\u{2de4}", "\u{306}\u{308}\u{a8e1}\u{1174}\u{1e944}\u{2de4}"),
        ("\u{8ff}\u{2f8dc}\u{fe22}\u{2df0}\u{c5fd}", "\u{8ff}\u{6753}\u{fe22}\u{2df0}\u{c5fd}"),
        ("\u{f9ba}\u{fb3a}", "\u{4e86}\u{5da}\u{5bc}"),
        ("\u{32c}\u{f997}\u{1167}\u{fa0a}", "\u{32c}\u{806f}\u{1167}\u{898b}"),
        ("\u{1f00}\u{11b8}\u{d06d}\u{1173}", "\u{1f00}\u{11b8}\u{d06d}\u{1173}"),
        ("\u{61}\u{f4}", "\u{61}\u{f4}"),
        ("\u{b15f}\u{116f}\u{2f9e3}\u{cb41}", "\u{b15f}\u{116f}\u{90f1}\u{cb41}"),
        ("\u{300}\u{fb34}", "\u{300}\u{5d4}\u{5bc}"),
        ("\u{116e}", "\u{116e}"),
        ("\u{351}\u{11368}\u{13a}\u{b549}\u{11af}\u{a82c}", "\u{351}\u{11368}\u{13a}\u{b549}\u{11af}\u{a82c}"),
        ("\u{369}\u{11a9}\u{b7cf}\u{11a8}\u{eba}", "\u{369}\u{11a9}\u{b7cf}\u{11a8}\u{eba}"),
        ("\u{300}\u{116c}", "\u{300}\u{116c}"),
        ("\u{1e18}", "\u{1e18}"),
        ("\u{af3c}\u{1dc3}\u{cbf8}\u{8db}\u{327}", "\u{af3c}\u{1dc3}\u{cbf8}\u{327}\u{8db}"),
        ("\u{1eab}\u{610}\u{1ac9}\u{b1bd}\u{2f919}\u{b836}", "\u{1eab}\u{610}\u{1ac9}\u{b1bd}\u{7077}\u{b836}"),
        ("\u{1100}\u{2f8df}", "\u{1100}\u{67fa}"),
        ("\u{1109}\u{2f8ce}", "\u{1109}\u{3b19}"),
        ("\u{2f915}\u{1f42}\u{f71}", "\u{701b}\u{1f42}\u{f71}"),
        ("\u{2f928}\u{300}\u{6f}", "\u{737a}\u{300}\u{6f}"),
        ("\u{fa52}\u{308}\u{ce38}\u{1734}", "\u{798d}\u{308}\u{ce38}\u{1734}"),
        ("\u{61}\u{fa74}\u{20}\u{327}\u{c397}", "\u{61}\u{5145}\u{20}\u{327}\u{c397}"),
        ("\u{8db}\u{1103}\u{737}\u{b174}", "\u{8db}\u{1103}\u{737}\u{b174}"),
        ("\u{300}\u{327}", "\u{327}\u{300}"),
        ("\u{116c}\u{308}\u{bcb5}\u{22e0}", "\u{116c}\u{308}\u{bcb5}\u{22e0}"),
        ("\u{1dfa}\u{2244}", "\u{1dfa}\u{2244}"),
        ("\u{1f78}\u{20}\u{ba87}", "\u{1f78}\u{20}\u{ba87}"),
        ("\u{ba7f}\u{327}\u{4f2}\u{d77c}\u{2f919}", "\u{ba7f}\u{327}\u{4f2}\u{d77c}\u{7077}"),
        ("\u{323}\u{61}", "\u{323}\u{61}"),
        ("\u{61}\u{c515}\u{65}\u{20d9}\u{b1f5}\u{f18}", "\u{61}\u{c515}\u{65}\u{20d9}\u{b1f5}\u{f18}"),
        ("\u{2f889}\u{330}\u{1105}\u{1fea}\u{bf32}", "\u{22183}\u{330}\u{1105}\u{1fea}\u{bf32}"),
        ("\u{1ab7}", "\u{1ab7}"),
        ("\u{6f}", "\u{6f}"),
        ("\u{fad3}\u{eb8}\u{1101}\u{110f}\u{ecb}", "\u{4018}\u{eb8}\u{1101}\u{110f}\u{ecb}"),
        ("\u{300}\u{aec8}\u{300}\u{fad8}\u{300}", "\u{300}\u{aec8}\u{300}\u{9f43}\u{300}"),
        ("\u{169}\u{819}\u{1166}\u{ad5c}\u{308}", "\u{169}\u{819}\u{1166}\u{ad5c}\u{308}"),
        ("\u{2f9e0}", "\u{285d2}"),
        ("\u{f93b}", "\u{788c}"),
        ("\u{20d0}\u{11b0}", "\u{20d0}\u{11b0}"),
        ("\u{20}\u{20}", "\u{20}\u{20}"),
        ("\u{137}\u{1161}\u{cc1d}\u{ae06}", "\u{137}\u{1161}\u{cc1d}\u{ae06}"),
        ("\u{1f62}", "\u{1f62}"),
        ("\u{301}\u{b621}\u{c52d}\u{1e2ae}\u{323}", "\u{301}\u{b621}\u{c52d}\u{323}\u{1e2ae}"),
        ("\u{11aa}", "\u{11aa}"),
        ("\u{8e8}\u{2de6}\u{41}\u{616}\u{11bb}", "\u{8e8}\u{2de6}\u{41}\u{616}\u{11bb}"),
        ("\u{308}\u{c2a2}\u{1100}", "\u{308}\u{c2a2}\u{1100}"),
        ("\u{308}\u{116b}\u{f913}", "\u{308}\u{116b}\u{908f}"),
        ("\u{41}\u{11070}\u{85a}\u{bd7e}", "\u{41}\u{11070}\u{85a}\u{bd7e}"),
        ("\u{20}", "\u{20}"),
        ("\u{327}\u{327}\u{10a0f}", "\u{327}\u{327}\u{10a0f}"),
        ("\u{61}", "\u{61}"),
        ("\u{d484}\u{61}", "\u{d484}\u{61}"),
        ("\u{116c}\u{fe26}\u{f9f6}", "\u{116c}\u{fe26}\u{81e8}"),
        ("\u{11c1}\u{c3c}\u{301}", "\u{11c1}\u{c3c}\u{301}"),
        ("\u{fa8c}\u{11bd}\u{300}", "\u{6234}\u{11bd}\u{300}"),
        ("\u{bcd}\u{5a7}", "\u{bcd}\u{5a7}"),
        ("\u{2f951}\u{c883}", "\u{40e3}\u{c883}"),
        ("\u{20}\u{2de3}\u{1eb3}\u{1175}", "\u{20}\u{2de3}\u{1eb3}\u{1175}"),
        ("\u{323}\u{1109}\u{2de0}", "\u{323}\u{1109}\u{2de0}"),
        ("\u{65}", "\u{65}"),
        ("\u{300}\u{c2d8}\u{b055}", "\u{300}\u{c2d8}\u{b055}"),
        ("\u{1164}\u{116e}\u{41}\u{a677}", "\u{1164}\u{116e}\u{41}\u{a677}"),
        ("\u{10ae6}\u{219a}\u{2f875}", "\u{10ae6}\u{219a}\u{5c22}"),
        ("\u{2df4}\u{11c0}\u{1f9f}\u{11133}", "\u{2df4}\u{11c0}\u{1f9f}\u{11133}"),
        ("\u{2df2}", "\u{2df2}"),
        ("\u{4c1}", "\u{4c1}"),
        ("\u{1111}\u{1f7a}\u{1101}\u{1103}\u{8f3}", "\u{1111}\u{1f7a}\u{1101}\u{1103}\u{8f3}"),
        ("\u{2f9d8}\u{d306}\u{1164}", "\u{27f2f}\u{d306}\u{1164}"),
        ("\u{aee8}", "\u{aee8}"),
        ("\u{300}", "\u{300}"),
        ("\u{301}\u{11bb}\u{13c}\u{11a8}", "\u{301}\u{11bb}\u{13c}\u{11a8}"),
        ("\u{d34b}", "\u{d34b}"),
        ("\u{1162}\u{119}\u{6ea}\u{1de7}\u{fb2e}\u{11b6}", "\u{1162}\u{119}\u{6ea}\u{1de7}\u{5d0}\u{5b7}\u{11b6}"),
        ("\u{327}\u{65}\u{327}", "\u{327}\u{229}"),
        ("\u{112e9}\u{20}\u{ae06}", "\u{112e9}\u{20}\u{ae06}"),
        ("\u{11ba}\u{20}\u{11c2}\u{20}\u{817}\u{2f9ad}", "\u{11ba}\u{20}\u{11c2}\u{20}\u{817}\u{26f2c}"),
        ("\u{1161}", "\u{1161}"),
        ("\u{1734}\u{14c}\u{65}\u{22e}\u{323}\u{20d1}", "\u{1734}\u{14c}\u{65}\u{1ecc}\u{307}\u{20d1}"),
        ("\u{11ae}\u{64e}", "\u{11ae}\u{64e}"),
        ("\u{1de6}\u{fac3}\u{1ac8}\u{b9a4}\u{11b1}\u{b992}", "\u{1de6}\u{9072}\u{1ac8}\u{b9a4}\u{11b1}\u{b992}"),
        ("\u{1e1a}\u{3aa}\u{d726}", "\u{1e1a}\u{3aa}\u{d726}"),
        ("\u{22ea}\u{301}\u{c409}", "\u{22ea}\u{301}\u{c409}"),
        ("\u{31f}\u{1102}\u{11b7}\u{740}\u{1168}\u{11b6}", "\u{31f}\u{1102}\u{11b7}\u{740}\u{1168}\u{11b6}"),
        ("\u{1174}\u{b9dc}\u{65}\u{bd1b}\u{1d1ab}\u{1172}", "\u{1174}\u{b9dc}\u{65}\u{bd1b}\u{1d1ab}\u{1172}"),
        ("\u{1100}", "\u{1100}"),
        ("\u{5c5}\u{11b9}\u{2cef}\u{1fdd}", "\u{5c5}\u{11b9}\u{2cef}\u{1fdd}"),
        ("\u{1105}\u{b7aa}\u{b4f2}\u{1103}\u{1ed4}\u{1e83}", "\u{1105}\u{b7aa}\u{b4f2}\u{1103}\u{1ed4}\u{1e83}"),
        ("\u{1dcb}\u{110c}\u{1c37}", "\u{1dcb}\u{110c}\u{1c37}"),
        ("\u{b1c6}\u{c1bb}\u{c17b}\u{3076}\u{16b36}\u{179}", "\u{b1c6}\u{c1bb}\u{c17b}\u{3076}\u{16b36}\u{179}"),
        ("\u{327}\u{20ec}", "\u{327}\u{20ec}"),
        ("\u{11e}\u{fa35}\u{1e24}\u{2f9dd}", "\u{11e}\u{5351}\u{1e24}\u{208de}"),
        ("\u{301}\u{1f51}", "\u{301}\u{1f51}"),
        ("\u{65}\u{323}", "\u{1eb9}"),
        ("\u{300}", "\u{300}"),
        ("\u{fabe}\u{1e01c}\u{11100}\u{f977}", "\u{8aed}\u{1e01c}\u{11100}\u{4eae}"),
        ("\u{30f}\u{1170}\u{1d8}\u{1dd1}\u{2f898}\u{300}", "\u{30f}\u{1170}\u{1d8}\u{1dd1}\u{261da}\u{300}"),
        ("\u{fa5b}\u{2f953}\u{20}", "\u{8005}\u{7956}\u{20}"),
        ("\u{11b4}\u{11b3}\u{c05e}\u{301}\u{b5ad}", "\u{11b4}\u{11b3}\u{c05e}\u{301}\u{b5ad}"),
        ("\u{c63c}\u{a6f0}\u{30c2}\u{323}", "\u{c63c}\u{a6f0}\u{30c2}\u{323}"),
        ("\u{301}\u{1d242}\u{aab0}", "\u{301}\u{1d242}\u{aab0}"),
        ("\u{165}", "\u{165}"),
        ("\u{2f88f}\u{300}\u{cf21}\u{11ba}\u{41}\u{d56d}", "\u{2a392}\u{300}\u{cf21}\u{11ba}\u{41}\u{d56d}"),
        ("\u{300}\u{323}\u{bb00}\u{c2bb}", "\u{323}\u{300}\u{bb00}\u{c2bb}"),
        ("\u{2f85c}\u{20}\u{300}\u{2270}\u{20}\u{11bc}", "\u{5906}\u{20}\u{300}\u{2270}\u{20}\u{11bc}"),
        ("\u{11c2}\u{308}\u{6f}\u{343}\u{300}\u{6f}", "\u{11c2}\u{308}\u{6f}\u{313}\u{300}\u{6f}"),
        ("\u{1d181}\u{116c}\u{5b9}\u{b75f}\u{fa4b}", "\u{1d181}\u{116c}\u{5b9}\u{b75f}\u{7891}"),
        ("\u{11b6}\u{2f8a0}\u{10a3f}\u{11b0}", "\u{11b6}\u{6081}\u{10a3f}\u{11b0}"),
        ("\u{11ad}", "\u{11ad}"),
        ("\u{323}\u{11b9}\u{f97f}\u{be97}\u{b327}\u{d49d}", "\u{323}\u{11b9}\u{52f5}\u{be97}\u{b327}\u{d49d}"),
        ("\u{1145e}\u{65}\u{1e77}\u{11be}", "\u{1145e}\u{65}\u{1e77}\u{11be}"),
    ]
}

#[test]
fn canonical_text_normalizes_strings_like_the_unicode_data() {
    for (input, expected) in cases() {
        let text = String::from_utf8(canonicalize_jcs(&JsonValue::Str(input.to_string())).unwrap()).unwrap();
        assert_eq!(text, format!("\"{}\"", expected), "{:?}", input);
    }
}
