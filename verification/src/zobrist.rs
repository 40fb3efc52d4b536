use vstd::prelude::*;
use crate::bits::lemma_xor_laws;
use crate::board_state::{
    has_right, BLACK_KINGSIDE, BLACK_QUEENSIDE, WHITE_KINGSIDE, WHITE_QUEENSIDE,
};
use crate::piece::{Color, PieceColor};

verus! {

/// One key for each piece of each colour on each square. The first row
/// belongs to the empty square and is never used.
pub const PIECE_COLOR_HSH: [[u64; 64]; 13] = [
    [
        0x9a43059036ff1782, 0x8f73b3ab27629363, 0x43f25d05dcea7cb5, 0xe9984c2a16274e3e,
        0xf62f60b0b70ab044, 0x2b3a432ebb7dbf57, 0xd742bca2b8328cfc, 0xe2d3bef1e2c8ac97,
        0x03f3ae2964c7f196, 0xe4d99175e3d878e0, 0xfc25f6ca3094754e, 0xb72cbc3dbc6971cc,
        0x6d0befffe65e09cd, 0xa8fee4dbc72b0b44, 0x181ad768966a5df5, 0x5407f0d15e5d44cf,
        0xaf4c044ce0184375, 0xd78e5ea65e1f23fd, 0x7d76765fe28794a6, 0x0898076bc31490bb,
        0x535c3f79e92a6cf0, 0xa08c66da3000a4b0, 0x4d0006e538fc27de, 0x8f78bf065fb60fec,
        0xe938a345d5bda125, 0xb83c4124edf63abc, 0x340ea5e013baa949, 0xd918dfc0483626df,
        0xc7420a47e762ec52, 0x2910857638506d85, 0xe0c2b0c816b598d7, 0x6c9c859c895dfb2e,
        0x461d0f46d7642fb1, 0x8555067a7393442b, 0x71c269d1ce5a11b9, 0x3d782b33e8df3df5,
        0x78c0ce232d551e2e, 0x6ec32ae07328e2ed, 0x56f3984405fd8bb1, 0xa3334f3e063bb222,
        0x7d6971c99a4215cc, 0x70f2407b10d6f6f8, 0xe123210269dbaa60, 0x0731b335090473b1,
        0xfa0e6314886ddc93, 0xe526ffd4b5a1305e, 0xedd0aa1972cecc97, 0x0209f3ff51c55c7f,
        0x0dd4dbe70ab3a48f, 0x24af0c0cded15be7, 0x6a3e73794f1c7842, 0x21a2337354d9e8b0,
        0x2e5ddd11053f9887, 0x6d1a130396ee6e14, 0xdedc39f0d59cfc9b, 0x7acf9fb174a8418a,
        0x522ae883553d479c, 0x0c0d4b12d03448c0, 0xb08393f43e082e4c, 0x8705f350155683bb,
        0xee8b4c134ec26d45, 0x68a9c87cda11af27, 0xcff421c390acfff3, 0x37f7b43593a3a5b7,
    ],
    [
        0x25c7f6c18d1e6073, 0x16735c3c4c1f0f99, 0xdbf134f955541baa, 0x569190b69927a881,
        0x3fdfbf01e35c1fdb, 0x9d2c3aacb01267b3, 0x166804c7980a67ad, 0xe13fffece6722270,
        0x0fe22871c0de163d, 0xdcddd302c8d6af65, 0x82b969390a7a5e1a, 0xa021901c45f9539f,
        0x00a85b0392da6c03, 0x5fa3f47b1ae763fe, 0x0b5ceac14d33724e, 0xa725ab9ceba4317e,
        0xf5e7e237ffce30bc, 0x2039728c47476777, 0x173c7f750983615f, 0x1f4b30ddc741d038,
        0x281f8951411c7496, 0x3ff6c91b0d337651, 0x9fbcc95053d50b00, 0xdf3404e8d6ac210b,
        0x5d17367e388d685a, 0xe25644903daa01cd, 0x8354589240260316, 0x00600c9ab72d52f1,
        0x93be3080789db49a, 0x1a004c1a9713d1ed, 0xfe1835fab1cbc2a1, 0x7d0cc9ea09f922c6,
        0xaf73c43d456455da, 0x375e7ccf96ca0359, 0x44ea290bca8e38e3, 0x4314efffcef9d279,
        0x4206b128a422c6c2, 0x44a84284be88e3a3, 0x56a7915f7079b77e, 0x456684cfd7ba3a21,
        0x233e6f29faf6194c, 0x77a4c36787577135, 0x3a5c034a36c4f688, 0xdc748405f4bd6559,
        0x87eb7cb9363a661d, 0xdd67ae168f7bf772, 0xe06089e1cc2192d8, 0xafa3ea2b951b467f,
        0x00d4e51f12e99cf1, 0xf24fb5dcdaccc841, 0x053d6eef0b4aa60d, 0x18706e2c0577c64a,
        0x4541558b9e942d29, 0x46f2440730495dfd, 0x16d0ca4bedc011c0, 0x6c8490e0ebc0c961,
        0xb131362b822e59e7, 0x678e10ed3dcddb35, 0x39a0574b69e05950, 0x91984364a41a64a9,
        0xf9fa55e3d40d3433, 0xa58bac0f7b33e84c, 0x4d095c880d378a76, 0xdb6300c9d14b660b,
    ],
    [
        0xbf419318882ef671, 0x8666d2834b409fa3, 0xb0f0e14d0e0b97b5, 0x74deb887ba3fdf68,
        0xd9b9c86aaf9ce336, 0x27886784eabbd9cd, 0x1946415b6fe6917d, 0xc585f9a381d26e22,
        0xcb538518a64a1237, 0x43ff52bffb5f5154, 0xc664c6c56f91e106, 0x7862da7f60eccda8,
        0x1c20ac57666a0617, 0xd2e0c53dd8477b82, 0x86c6e9fb96e679b4, 0xd3221a51906154a9,
        0x94d9e47cd16aef82, 0xade59ee17ee30adc, 0x21e5d9379d7d51a0, 0x2615424c8338c1a7,
        0x37fbf8a3725e0263, 0x05b0470340df4cb8, 0x75b6bdf484d3bc89, 0xfb10810492307122,
        0xf6ec0d4e22c336d2, 0xcc8ee0050e545c60, 0x887b65f5a583b53d, 0xad27675ef5435daf,
        0x0829319db917447e, 0x331762d855e3389e, 0x1ff4a45aaa3b9cd8, 0xf4ca815dcc2c0a80,
        0x8d0850c143160486, 0xb166833782646ea0, 0x095181c2154bcaf7, 0x937ab0325095bbe5,
        0xaf992618faaed4ae, 0x122538e728eb3485, 0xd7baa8db61ac6b40, 0x105a0869b557684f,
        0xa1c0c65861c1ef7e, 0x49d8d6d52383b6a6, 0x2358382385ed81f1, 0x30bed9f3619996ba,
        0xfc64a1291eacc347, 0x032a5c4924a07dc8, 0x79f974df0b06af85, 0xd119450239c96969,
        0x4f9cf408fd2a7842, 0x8c67c499617b7f9e, 0xf79eeb5416c1142a, 0xc63dce1d9d8d8d74,
        0xfa6351861c5b7f81, 0xbf19671d032808cd, 0x1b128f8357aef284, 0xb8e7253d32268085,
        0xa5b154a82500284d, 0xf4d82aba8d3a8f1e, 0x5238ea7fc4380ef3, 0x97c6e59c028baed1,
        0xc6aba8fe1f462a6a, 0x5dcaef0ee4a08f27, 0x1bf29eaaa769af16, 0x5bc190fef3b9c41f,
    ],
    [
        0x07c840b21fd8ec82, 0x0953597961bb07d5, 0x043191f745911f8d, 0xa99bc3a3c87322c0,
        0xc8d3a2487e945b58, 0xc35cbdd9f03dd860, 0xbfa48dc72011c9d8, 0xdc78a5dd3735f23a,
        0xaec4f9a01a7946e1, 0xea9be93714b5ea2e, 0x9cf61cd29fe2841d, 0x6873933e254df364,
        0x2b1d325b0fa40d6a, 0xe441e8223a094d73, 0x998808f387250d65, 0x4853ee603f38baf5,
        0x2c3cc319690b0dd6, 0x7e5354c71744cf1e, 0x4a9b377d2401ad04, 0x7bec0579ebc5ded9,
        0x6c07261791c15823, 0xfd805bda6430062e, 0x03ccc1ee20814516, 0x36c5a3c5b478e01d,
        0xd1681a453c19ab60, 0xb351ba5557dc0d76, 0xb1163d22a7f81815, 0x4c44edcfefb89907,
        0xe87ec3cd45508e18, 0x79da9f75a5baf96d, 0x86ed3ecce6e1ef8b, 0xdfdc6642d8d9356b,
        0xb4cc6668dbe393d4, 0xb69871d8335da0bb, 0x7b5c226dc6a13eb3, 0xc5f1633131ba243d,
        0x2bd59d277fb28c4b, 0x21745fc6f8bda83b, 0xa9dda300d7c3478c, 0x69cd76a58874c602,
        0xc8d980fa4976f149, 0x39efefd3481d5ec6, 0x39fffe7d1fb9da10, 0x0c8c9a98aa4490e9,
        0xf8009b8c290022b5, 0xb71c15b2c83c76a9, 0xbb800af894bd4f41, 0x8f524a527c77c6eb,
        0x31b8cfb2b0f87609, 0x9e78caf667908ff3, 0xe83765eb7d4e5600, 0x5414fbfa049b6c5d,
        0xff78e06c54771020, 0x2c35c42a15c60213, 0x0e709e7fcfd58cd8, 0x0d504ea248aa4998,
        0x14b121e41a0041f6, 0xeb5b959fba84dbe1, 0xa00d26cdcff0197b, 0xf051a80e808754fa,
        0x06918b3c66ddd962, 0x575fb8ff64a72eb5, 0x3195b60cce10c9ba, 0xdd6ad5e70c78aca0,
    ],
    [
        0xbec453be84bc47ed, 0x8fe164ee56072eb0, 0x7fd8605c07bc0197, 0x8f4a71230b2d625a,
        0x14867674688f756b, 0xb9b8e44fd9dec82b, 0x1bf9e1d1d6cb080f, 0x05fea752e688f1f6,
        0x274112952b39daa1, 0x95471508772da439, 0xab3a585d9bac809a, 0x30f5da0163a29152,
        0xd5f368d0379ea1f4, 0x1f68c3d010bf60e4, 0x8a875fcf9d36d108, 0xebdcf3c37e39d27b,
        0xc39e5f4675a752e5, 0xfac1fd6dad79c4e7, 0xdf54824b01d2adda, 0x71850692f05ae5c3,
        0xe65101aa3c7b4638, 0xd0c92e1b88f04c59, 0x67d18468798d3bd6, 0x36ed8c8567426df8,
        0x4c5004a91af34234, 0x4295e06804ecab41, 0x6577b6e7461d0539, 0x3fcdac356aa17e86,
        0xd671fffc45c107aa, 0xdf3dbd7a132a64d7, 0xe4c8f75dd6d8f411, 0xa12391e0a44ddfe0,
        0x0a528ad7dad75ae6, 0x5f22f579db45c5eb, 0x9b4d4f114426daf7, 0x13c622c1e8e2ed12,
        0x102329a586e66653, 0x540f04ea59702203, 0x354d26be59413f19, 0x4fc9db0c66c2f082,
        0x6f307ed54053aa64, 0x59cb62092dbe9a02, 0x1a14bbe68151bfcf, 0xe27c127e538d9cc6,
        0x7c30e8ee2442ab43, 0x7e731ce8e8198b13, 0x3bde0ed8b4540456, 0x7609e05ceb2ed44b,
        0x312c56bbf0ba7317, 0xb40df90eea83c1bb, 0x11f2ae8b1882a5d9, 0x691c23f58a2c4d7a,
        0xcf805bae41533db3, 0x77d69d181088dcf7, 0xa2f59c0bb2f93f53, 0xb9675a5d6fddfdfc,
        0xb557bb380b06d963, 0xd11366d0eb57e983, 0x9ef28573946c3167, 0xe33893298dc12e84,
        0x3d0ed923a6578718, 0x456cc19ef4fdd711, 0x3a26743d513773a9, 0x730b197ac129c8a5,
    ],
    [
        0x707e22394de38de4, 0x96ae57dd4607abdc, 0x75c5793da84e66ab, 0xc76152a6188e7db6,
        0x8926d1230beaf2c5, 0xf0caa0bc0f6d9580, 0x02592dc41db577f4, 0x4691c50eca63dd19,
        0xe84d607623daebe1, 0x9223a7e5e1e0cc93, 0x6f100f75e9438b56, 0xe734e42b4def792f,
        0x3f604e975e7b5f9f, 0x61452b582de332da, 0xd9895e73e3e92f90, 0xa79b617feb1b99f9,
        0xeb11870fdbf027a0, 0x4acb3b9e32234832, 0x6905a681a3d897fd, 0x51cd68624ba69012,
        0xc0dcb40f5a6130de, 0x886b52c156b2aca1, 0xa1141c1b7b9168af, 0x9ecd68ec2ac7a3a5,
        0xb3659749005ba880, 0x6a5d7a6b00599012, 0xd090fb8f7d8abd42, 0xccd16d5917155f21,
        0x004d1e9b9e9dec89, 0x47fd94ba99b3bcdb, 0xb47d92ed051c14a1, 0x88146420609a6117,
        0xec140f7d7e45e45b, 0xbf9f4a3904c2427e, 0x3e559b1313fadbc5, 0xcdb579eb292a8aa0,
        0x1177436d67debd74, 0x81d4b3c2397dfede, 0x1dbd0837320c704c, 0x2f1a5e763174164e,
        0xe716f7fc76d0ffc5, 0x9bf0e689cff33d16, 0x64aa0945ee2b74ec, 0x58f2e7407bf00d51,
        0x05d6715d1a29b25a, 0x9039c881d8100aee, 0x4e63060f1bb929a8, 0xfff7d6cd2655dc97,
        0x0fb832d69eff6e9d, 0x8890093d01d56315, 0x24ea50806624e544, 0x1e7d8bab003be4b6,
        0x68e09a125459b3d2, 0xc5d88e0bdbb99f94, 0x5448f9a18e400f3d, 0x49929b5d1272bf7d,
        0x4924f9ce0889b5e5, 0xdcaf52fbb5e9b477, 0x15363347072eee3d, 0x71c8259d64054d9e,
        0x74062115f0ae4841, 0xec9b0055c3257ebc, 0xdd82db9644404856, 0xa647505d5577296e,
    ],
    [
        0x43fd1f03d9533812, 0xc03dedeb21028bf2, 0xeacde1c73cae0c43, 0x81d32144dcbd7010,
        0xe27dee4206482bb1, 0x51a42c9d7d77f412, 0x375299a8a29882aa, 0x33b4760d28423c95,
        0x47981eec6b00421f, 0xa413336b2aea0d28, 0x7dd7fb19182fd946, 0xa2e627ace70b7e82,
        0xfaeccc6abccef6b2, 0x4723ba2f363adb59, 0xb3a86ecfc0f5253e, 0xfd8058e6132c1e59,
        0x427fe0776d7313cb, 0x8d5c99bf793b11ba, 0xe19902c18bef7307, 0x89ab75e9bc482697,
        0xea656bdb68fcdd15, 0xd8e110646213cb2a, 0xb5d3a3ae216da25d, 0xa4197b92ef1af17f,
        0x33952126c5ad4c3e, 0x788881132ac951d9, 0xa837c6b7d49b555b, 0x4774c1c04f72fd11,
        0x5d3008caf7777167, 0x058ddd20bf283b60, 0xc2ba34a8d5be4fe4, 0xd387910d24c4d494,
        0x16293790ae7a6327, 0xae5aeb7bfcce0840, 0x362e919a7eb66c81, 0x0e651b71a2f60693,
        0xb7d4484a8381781e, 0xccdb8b98e01218c2, 0x2cbf320c20afbba9, 0xf657f9038f3673ef,
        0xcea9070a7706fdf0, 0x896a12987a9f7431, 0x40ddd6d037b7e30b, 0xdfda70dc9e9d57bf,
        0xa65e87e2d4ce75c7, 0xeb395aa898cb2dea, 0x9457fb8d04508a83, 0x769d5957493c24ea,
        0x50bcb99b951f364a, 0xafb05d6f14a27ee1, 0x65bf430c8af59278, 0x493d6b52514c4de5,
        0x563c36efe04b3434, 0x93ccb15af9620852, 0x6da59d2f5be9b263, 0x1ad9744ac4b06a13,
        0x0b4e58075806340e, 0x3c08d2fd9d1f2228, 0x319d989d627595dd, 0xe3de7409c0ba3b5e,
        0xc6d5dd719733f843, 0x970f6d5b60585396, 0xf17b035a46dcf3c2, 0x148cedea7264dada,
    ],
    [
        0x57e7c381559fd67b, 0x385c7dd41db249c8, 0x01285eb6e08b746d, 0xe249421fbbdad773,
        0x5c5146d464f5e3c1, 0x2a36ad78ac91c9e0, 0x6903e18fa7951d73, 0xfe68a8479c0f9003,
        0x20c1b5692070d0c3, 0x1ae08c99ef0585f8, 0xe50ca595a89e018e, 0xb41c7cb5dfdfdc07,
        0x8fdfe1796734e0ef, 0x8a84af8c924a0366, 0xca0710eed5578468, 0x6d4f9443c9889645,
        0x0fd5593ae137535a, 0xbd609c5d0d03fabc, 0xf5165ee7963295e2, 0x96c839d53f794c58,
        0xf399f30bfb5edf64, 0x49e2e744ed4593da, 0xc8dbfa670cdcd3b1, 0x7a80d559cfdb63f3,
        0xba4288ecf9889f4f, 0x649fe3eb6c104ee1, 0xe5d09f58ef7a13bf, 0x5213b7dcb26343ee,
        0xc94dcaa7e927dbb1, 0x67f268bd9863176c, 0x397059b4b7c521df, 0x7bf3cf56c73004fc,
        0xb5cc92e2ad9e7e0a, 0xb7bd04b1392dd07c, 0x959140a2b524dc68, 0xa9de6e9d48303069,
        0x9d5ef0a99bc912d8, 0xa44ada494d1fde43, 0xcaadd135f40bbc62, 0xca6110a15f4b3fb5,
        0x00a3eb55fba806e0, 0xfcd95981c18b4049, 0xdb03aacff4adbbbf, 0xfd163a621a3d1ef2,
        0x0f1776d5a4de6ed2, 0x6dd1e28e5451bbcb, 0x10c03ef88f24a314, 0xad0cfc0233c0accb,
        0xce16a7711288bcf8, 0x4f07188461cdd99a, 0x434736c66af57c16, 0x9a804facd60e6d65,
        0xbf964e49b09e3f68, 0xb416f4622bbb8dab, 0xca5287336275ad31, 0xbdf7c047b9e6c5a9,
        0x092047ae7106cf7e, 0xc8764fdb74ec65eb, 0x7edc5499d6b8b4b6, 0x52c05af063dc0837,
        0xa373e3ae596b64a2, 0x188b9384842d0fb2, 0x9b2dd45876e5ad1c, 0xc3d458cd7f92ffa9,
    ],
    [
        0xe7cc33a7c89255f6, 0x7900d2d41bcfc6d1, 0xde04d2639abab70c, 0xc415d0ed4ed5a748,
        0xd6cf960bfd690214, 0x29d345a504bba8f0, 0x0be11d56b59644e8, 0x5e160cc0d61de5f2,
        0x18cca9551b1497f5, 0xf51635805e14cc36, 0x1ff0f6a15bf44e94, 0x18a3fc5e7657fb31,
        0x1eb96f11698de580, 0x99f46f11fff86b95, 0x6effc7caeef236cc, 0x0f6ad1a646b1db5b,
        0x588512e5144a21c3, 0xda8297d36c564872, 0x957d00d764ff6188, 0x8ed65ecd584112b1,
        0x5052f0297ce29886, 0x80479296738cdf28, 0xaecd2b05da9c5f64, 0xdeed3046fef2bccc,
        0x2c971ca300c77e75, 0x9fc87c93783737e3, 0x32ec656b6f6ae542, 0x7f1a3371446c5b13,
        0xd1f6fec21a97b31a, 0xecbfeba521d3ef65, 0xebc15b46807fa26f, 0x567abb729d1fc415,
        0xb33be147d5884e5e, 0x45e9a7704054edb9, 0x7abfdfc16e3afcaa, 0x7ce8db8863c3335e,
        0xf29f7faab9be2df6, 0xd006d032dc203ea3, 0xaf3e402831c9d8b4, 0x60f714f0b1822eaa,
        0xd3e97a146f8edef3, 0x4248fde82891f90a, 0x67d3dede45187227, 0xa86a27c07c5b50c5,
        0x9d6b9134a964cd98, 0x9b1786bb008f0d9d, 0x8731779c6312f476, 0x578e7811feab739b,
        0xd923bc981e80305a, 0x869d5e6c97fa7c2e, 0x3163d40ab81a9c75, 0x597f22455de36e1e,
        0x04ae791ac195836f, 0xe34c783dc6dbb57d, 0xf7f062a84116987d, 0x737faddc75d461d1,
        0x4ae4640217d2bf74, 0x398c63b12c53b37d, 0x8fb3eb6b8f23c5a4, 0x39470a2c3d49bf7c,
        0x0a87f3763384918f, 0x7974eec3256e222c, 0xdcc09a28dae22671, 0xe01fdc0292fdacd3,
    ],
    [
        0x4fc58936e846682b, 0xc04af9e3b10ded38, 0xb5740f0fadfe740e, 0xf1ccab83c3619596,
        0xb5efca5984f3dcfb, 0x003aab1765b287a5, 0x749bd243bf38dc7e, 0x64657eb322604465,
        0xc3d2af2af7140be2, 0x376572b171d1763c, 0xbf4ae97de18ba43e, 0x6104f6f6db1677eb,
        0xf82646bd3b365cb9, 0xb58a0cf145986794, 0x0955cec3c307faf0, 0x4c966bd051f69de5,
        0x58be094c2fc21047, 0xddecd19ec361384c, 0x2dcb138ed2d84116, 0x2383518175f059b3,
        0xcd08f6577a4c702e, 0xa12bcbaa84309116, 0x3877813cd3ed70e9, 0x815acbdfba74a174,
        0xe200e33de21ddee2, 0xc29eaca82394fb00, 0x5bdfb5f7e033fe9d, 0x2651e165fee1cde2,
        0x40a6443de16f4498, 0x383f15edfb37d3eb, 0xb613c66189165852, 0x6441eb89f4b9d784,
        0x57eb069435998af1, 0x737a4f6d4119d84f, 0x07e91266572eef01, 0x62355879324c1ebb,
        0x40ae8e7a36f32d32, 0x141eafa611d4cb53, 0xc339ce46a7026ce4, 0xfbad2f34e6a30ff5,
        0x51b08012b16f20e5, 0xc62b647b86e1ee10, 0x0edc5dde5d24d507, 0x68e30408cc49acdf,
        0x0a2a21142ef5805b, 0x0e3905b30873a438, 0xda613402c03b97d3, 0x567abc976bbc7a8b,
        0x5ba9ff32ffb93803, 0x298e201d07173cd0, 0xd15b6390b1a3cc8f, 0x23505d8cdd6280bf,
        0x2ea7c2e7bff21d84, 0xab751337026238ed, 0x62a792d27add5a77, 0xeef784a54b7353a6,
        0x49deff441bfc0e16, 0x59853ad079c7a1e0, 0x08ec5ef3987760b2, 0x21eb41816258c42d,
        0x4a2b88d749362da8, 0xb946c1985fbfc20d, 0xa080ae9a3603c8b3, 0x7b29e3463eb9e087,
    ],
    [
        0x94b9e9f5ceb52b5f, 0x8354afe16c72a7d8, 0x990e437434801ddd, 0x0f4dee3bbe353193,
        0xacace5641d0104e3, 0x79162f154285cce6, 0x9a900a8294e4ef3a, 0xcb347ee06539a65c,
        0xb3938dc56f99ee9a, 0x683b285b94780a9e, 0xbebeacbab1dfd045, 0x3523413b3c7bcb58,
        0xdea3e81105400074, 0x189f694134020a2b, 0x4f3fce034ebee954, 0x3546693984e1998e,
        0xf8184a09436e588d, 0xd4d59d1aac43d77b, 0x5f48e031d44107d6, 0xef62813f9859fd69,
        0xf8361b4201c3e5cf, 0xe8097151d3e28e31, 0x396ffae740871dd4, 0x746cab6d74f26694,
        0xf4939542dd5f96ea, 0x2cf885446a024ca2, 0x923819ac7cf15086, 0xed38932492cda2ab,
        0xa5b8dec02f01814d, 0x5391062166cf4e43, 0x0c2e79ac5901a400, 0x26580dc2e0c42b60,
        0xc270db96e4d6ac34, 0x2e3fb389f3706d39, 0xdf75027866b53381, 0xea3f29015732506a,
        0xc6f6ee8136621fd9, 0x0e6e97c108dcb11f, 0xb963cbb500d4990b, 0xa6e4104bbe4c5685,
        0x1caee1e98d4fe983, 0xcc4c09466da163e2, 0x7f671df532bd3b36, 0x21dc2a5c4efa1b03,
        0xbc811dd372f48696, 0xbd9766a4f5d76cff, 0x802d5c394d7c49c2, 0xdf4b91408044ea74,
        0xd99e49005fe3d172, 0x33b1608009adb58f, 0x21fe81baf47ad7a4, 0xec76062d7196635c,
        0x743f04e03c7066f3, 0xf1db53635c77d312, 0x26f69f7a22e85ffd, 0x94b970038e3d14d4,
        0x7869668a3f33ecca, 0x27f1b8374e5788b5, 0x658cf407d9cce32a, 0x41898bf90fe4f165,
        0xdcc55b4a9fa4352f, 0x56a04e3d1231011e, 0xf77cdb2a0fccabd0, 0xe89d831351478480,
    ],
    [
        0xc2121b781efd554e, 0x6a7201307fa64e9c, 0x03051fcfbe295500, 0x6e1e97ddb8207787,
        0x2e3c01798dcd3d4a, 0x73a85a6477b123dd, 0xd9082ba5dac938c7, 0x56e5e400fbbd0f84,
        0xbff85c30a7209111, 0x94b05e3b3ad53df8, 0xea7e003ce7f34bec, 0x4272a3a9e37484f0,
        0x3d32761c9c59f76d, 0x25bd227242acf101, 0x8beb46b71c81095f, 0x08e03590f0319540,
        0xc72635a09835575d, 0x590df572fdb13637, 0x983534636dff4512, 0x54059e1ace7bcb20,
        0x58fee535374ce4e5, 0x2dc8da3dda1a6035, 0xc7e88bc613d22862, 0x6031cfb1c7b06dcd,
        0xba4311227b31a10b, 0x72093c94360ba42d, 0xe3f6f1a68db97ca8, 0xa880a0a247b7bda8,
        0x770d50cb565f8da5, 0x3542fb57c5fed06a, 0x2b9eb96abe39b440, 0x2472d8481e69d860,
        0x53503a37f1029dca, 0x22bb550c4cc4b578, 0x3137169c8bb9ee91, 0x9d3280ed64858fd3,
        0x6c9a008ecc7eb541, 0xf2d7e90879a33dd2, 0x67edc649cbc8af21, 0x72169c201e2f4ab6,
        0xc49a0e8793daca11, 0xffd0baeeeb1e0794, 0xa5e8a38193061ad7, 0x08b2e0e1dc024d3d,
        0x348a1f1491ba2f88, 0x32656930754cf708, 0x79efd96575d8e314, 0x22adf5dce3748f5a,
        0x9ac96e7918567b88, 0xa0b5d880a0475830, 0x727d50948f3f9cda, 0x2cdee1f3349d2014,
        0x8aacc9dff7670b6d, 0xadf35399ccbcc92d, 0xe2902979d64e1515, 0xa271b87aa2380371,
        0xecb74bae864110bb, 0x705707a5307b6a4d, 0xbf632b7fbc09ba57, 0x8a5c7bec8e0dc153,
        0x1f168e83a65a551e, 0xeea93e54690a65ea, 0x9a5868edafb11c76, 0xa607ae2a36823573,
    ],
    [
        0x3d2b82afffb4c997, 0x1c6a0994c082d9d6, 0x91dc5dd3c2d78325, 0x52d515c86d7bb037,
        0x9be9a5f065cdab5a, 0xd6c485f046e4225b, 0xf887d718c09b0e5a, 0x241fd5d23b666b06,
        0xd9aebcea3541b64a, 0xe864502defdada2d, 0x2ac56b78d58b6403, 0x2422358ba863f952,
        0x0581041f986ae9af, 0xb6020c72c4dfd51c, 0x153bf7e9e80f09dc, 0x6a794821becd2074,
        0x58d3897db2bf6fb0, 0x12711a11a78eaad5, 0x29a5ae1b2d901322, 0x029aef9a04962347,
        0xcd344b67dd29eb9f, 0x3a63b59dc40ac963, 0x4ed950212da3fde6, 0xf6a6d1a44d922e41,
        0x1025b8ca4447f772, 0xfce08767b7bed312, 0x956b248d7d925876, 0x1a0a89c04ecf62fc,
        0x54c02abfe7d6c4d0, 0x2910997e67aabeea, 0x9bd67ae83d9b3c2a, 0xd9cd33f2213c78cd,
        0x1357c01914decba0, 0xabf22c3aeaa854ea, 0x6310e373393f1e9b, 0x48052afbb62dc57a,
        0x8c825c5b635cc654, 0xa1aca0372f17e94b, 0xe27a2c702ec7d6c5, 0x4a9a2db6635dbbb4,
        0x299224314dd5450a, 0x4744be0d23aa521f, 0xef4601e916488c95, 0xa5435881a7ca073e,
        0x2f95df501c615167, 0x3e4a454b91192e99, 0xa5485f4adb41599b, 0xd3132547c905e781,
        0x82b3203a63a35539, 0xdfda5d4e5faf65bb, 0xf0711e373792da08, 0x4c1681fc50e5327c,
        0x1b2d139649744ed8, 0x6c17d5c2c62e5f0e, 0x7021f3a7d1e073e5, 0x84804655f372fb6b,
        0xdfc011c33a16b053, 0x44bb2e58fad9f3b7, 0xa4e87f66ae4dd5ce, 0xa57f025fc801514f,
        0x8e313d1cbd7eada5, 0xa31529b0b6af3fa7, 0xa51a263e08c2a417, 0x0566ed041a02f843,
    ],
];

/// One key for each castling right, in the order of the rights' bits.
pub const CASTLE_HSH: [u64; 4] = [
    0xf1b455e8b32ba0ba, 0x7a7b0a46ea54664f, 0x1b3cedc499063c95, 0x125b2ab39fbfbdfe,
];

/// One key for each file that an en-passant target can lie on.
pub const EN_PASSANT_HSH: [u64; 8] = [
    0xc748843721c0ccc1, 0x6e64045c3a47b82f, 0x5541cde174a08dd2, 0x76787d176b0c1412,
    0xb6a9d18d16369af1, 0x02d4431d10dfc13b, 0x13aa0ef5bf11f423, 0x55b8eb025e2c33f5,
];

/// The key that is part of the signature while Black is to move.
pub const SIDE_TO_MOVE_HSH: u64 = 0x189fb87cbba377de;

/// What the content `pc` of the square `sq` adds to a signature.
pub open spec fn square_key(pc: PieceColor, sq: int) -> u64 {
    if pc == PieceColor::Empty {
        0
    } else {
        PIECE_COLOR_HSH[pc.index()][sq]
    }
}

/// The keys of the first `n` squares, combined with `^`.
pub open spec fn placement_hash(squares: Seq<PieceColor>, n: int) -> u64
    decreases n,
{
    if n <= 0 {
        0
    } else {
        placement_hash(squares, n - 1) ^ square_key(squares[n - 1], n - 1)
    }
}

/// `key` if `present`, else the neutral `0`.
pub open spec fn key_if(present: bool, key: u64) -> u64 {
    if present {
        key
    } else {
        0
    }
}

/// The keys of the castling rights held, combined with `^`.
pub open spec fn castle_hash(rights: u8) -> u64 {
    key_if(has_right(rights, WHITE_KINGSIDE), CASTLE_HSH[0]) ^ key_if(
        has_right(rights, WHITE_QUEENSIDE),
        CASTLE_HSH[1],
    ) ^ key_if(has_right(rights, BLACK_KINGSIDE), CASTLE_HSH[2]) ^ key_if(
        has_right(rights, BLACK_QUEENSIDE),
        CASTLE_HSH[3],
    )
}

/// The key of the file of the en-passant target, if there is a target.
pub open spec fn en_passant_hash(target: Option<u8>) -> u64 {
    match target {
        Some(sq) => EN_PASSANT_HSH[(sq % 8) as int],
        None => 0,
    }
}

/// The side-to-move key while Black is to move.
pub open spec fn side_hash(side: Color) -> u64 {
    key_if(side == Color::Black, SIDE_TO_MOVE_HSH)
}

/// Changing one square changes the placement signature by the key of what
/// stood there and the key of what stands there now.
pub proof fn lemma_placement_hash_update(squares: Seq<PieceColor>, sq: int, pc: PieceColor, n: int)
    requires
        0 <= sq < squares.len(),
        0 <= n <= squares.len(),
    ensures
        placement_hash(squares.update(sq, pc), n) == if sq < n {
            (placement_hash(squares, n) ^ square_key(squares[sq], sq)) ^ square_key(pc, sq)
        } else {
            placement_hash(squares, n)
        },
    decreases n,
{
    if n > 0 {
        lemma_placement_hash_update(squares, sq, pc, n - 1);
        let before = placement_hash(squares, n - 1);
        let old_key = square_key(squares[sq], sq);
        let new_key = square_key(pc, sq);
        if sq == n - 1 {
            lemma_xor_laws(before, old_key, new_key);
        } else if sq < n - 1 {
            let last = square_key(squares[n - 1], n - 1);
            lemma_xor_laws(before ^ old_key, new_key, last);
            lemma_xor_laws(before, old_key, last);
        }
    }
}

/// Passing the move to the other player changes the side key by
/// `SIDE_TO_MOVE_HSH`.
pub proof fn lemma_side_hash_other(side: Color)
    ensures
        side_hash(side.other()) == side_hash(side) ^ SIDE_TO_MOVE_HSH,
{
    lemma_xor_laws(SIDE_TO_MOVE_HSH, 0, 0);
}

} // verus!
