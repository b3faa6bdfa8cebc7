//! The legacy single-byte code page used for member names and comments:
//! a fixed bijection between the 256 byte values and 256 Unicode
//! characters. Bytes up to 0x7f keep their code point (control characters
//! included); bytes from 0x80 on denote the accented, box-drawing and
//! symbol glyphs of the classic 437 table.

use vstd::prelude::*;

verus! {

/// The Unicode character that byte `b` denotes in the code page.
pub open spec fn cp437_char(b: u8) -> char {
    match b {
        0x00u8 => '\u{0}',
        0x01u8 => '\u{1}',
        0x02u8 => '\u{2}',
        0x03u8 => '\u{3}',
        0x04u8 => '\u{4}',
        0x05u8 => '\u{5}',
        0x06u8 => '\u{6}',
        0x07u8 => '\u{7}',
        0x08u8 => '\u{8}',
        0x09u8 => '\u{9}',
        0x0au8 => '\u{a}',
        0x0bu8 => '\u{b}',
        0x0cu8 => '\u{c}',
        0x0du8 => '\u{d}',
        0x0eu8 => '\u{e}',
        0x0fu8 => '\u{f}',
        0x10u8 => '\u{10}',
        0x11u8 => '\u{11}',
        0x12u8 => '\u{12}',
        0x13u8 => '\u{13}',
        0x14u8 => '\u{14}',
        0x15u8 => '\u{15}',
        0x16u8 => '\u{16}',
        0x17u8 => '\u{17}',
        0x18u8 => '\u{18}',
        0x19u8 => '\u{19}',
        0x1au8 => '\u{1a}',
        0x1bu8 => '\u{1b}',
        0x1cu8 => '\u{1c}',
        0x1du8 => '\u{1d}',
        0x1eu8 => '\u{1e}',
        0x1fu8 => '\u{1f}',
        0x20u8 => '\u{20}',
        0x21u8 => '\u{21}',
        0x22u8 => '\u{22}',
        0x23u8 => '\u{23}',
        0x24u8 => '\u{24}',
        0x25u8 => '\u{25}',
        0x26u8 => '\u{26}',
        0x27u8 => '\u{27}',
        0x28u8 => '\u{28}',
        0x29u8 => '\u{29}',
        0x2au8 => '\u{2a}',
        0x2bu8 => '\u{2b}',
        0x2cu8 => '\u{2c}',
        0x2du8 => '\u{2d}',
        0x2eu8 => '\u{2e}',
        0x2fu8 => '\u{2f}',
        0x30u8 => '\u{30}',
        0x31u8 => '\u{31}',
        0x32u8 => '\u{32}',
        0x33u8 => '\u{33}',
        0x34u8 => '\u{34}',
        0x35u8 => '\u{35}',
        0x36u8 => '\u{36}',
        0x37u8 => '\u{37}',
        0x38u8 => '\u{38}',
        0x39u8 => '\u{39}',
        0x3au8 => '\u{3a}',
        0x3bu8 => '\u{3b}',
        0x3cu8 => '\u{3c}',
        0x3du8 => '\u{3d}',
        0x3eu8 => '\u{3e}',
        0x3fu8 => '\u{3f}',
        0x40u8 => '\u{40}',
        0x41u8 => '\u{41}',
        0x42u8 => '\u{42}',
        0x43u8 => '\u{43}',
        0x44u8 => '\u{44}',
        0x45u8 => '\u{45}',
        0x46u8 => '\u{46}',
        0x47u8 => '\u{47}',
        0x48u8 => '\u{48}',
        0x49u8 => '\u{49}',
        0x4au8 => '\u{4a}',
        0x4bu8 => '\u{4b}',
        0x4cu8 => '\u{4c}',
        0x4du8 => '\u{4d}',
        0x4eu8 => '\u{4e}',
        0x4fu8 => '\u{4f}',
        0x50u8 => '\u{50}',
        0x51u8 => '\u{51}',
        0x52u8 => '\u{52}',
        0x53u8 => '\u{53}',
        0x54u8 => '\u{54}',
        0x55u8 => '\u{55}',
        0x56u8 => '\u{56}',
        0x57u8 => '\u{57}',
        0x58u8 => '\u{58}',
        0x59u8 => '\u{59}',
        0x5au8 => '\u{5a}',
        0x5bu8 => '\u{5b}',
        0x5cu8 => '\u{5c}',
        0x5du8 => '\u{5d}',
        0x5eu8 => '\u{5e}',
        0x5fu8 => '\u{5f}',
        0x60u8 => '\u{60}',
        0x61u8 => '\u{61}',
        0x62u8 => '\u{62}',
        0x63u8 => '\u{63}',
        0x64u8 => '\u{64}',
        0x65u8 => '\u{65}',
        0x66u8 => '\u{66}',
        0x67u8 => '\u{67}',
        0x68u8 => '\u{68}',
        0x69u8 => '\u{69}',
        0x6au8 => '\u{6a}',
        0x6bu8 => '\u{6b}',
        0x6cu8 => '\u{6c}',
        0x6du8 => '\u{6d}',
        0x6eu8 => '\u{6e}',
        0x6fu8 => '\u{6f}',
        0x70u8 => '\u{70}',
        0x71u8 => '\u{71}',
        0x72u8 => '\u{72}',
        0x73u8 => '\u{73}',
        0x74u8 => '\u{74}',
        0x75u8 => '\u{75}',
        0x76u8 => '\u{76}',
        0x77u8 => '\u{77}',
        0x78u8 => '\u{78}',
        0x79u8 => '\u{79}',
        0x7au8 => '\u{7a}',
        0x7bu8 => '\u{7b}',
        0x7cu8 => '\u{7c}',
        0x7du8 => '\u{7d}',
        0x7eu8 => '\u{7e}',
        0x7fu8 => '\u{7f}',
        0x80u8 => '\u{c7}',
        0x81u8 => '\u{fc}',
        0x82u8 => '\u{e9}',
        0x83u8 => '\u{e2}',
        0x84u8 => '\u{e4}',
        0x85u8 => '\u{e0}',
        0x86u8 => '\u{e5}',
        0x87u8 => '\u{e7}',
        0x88u8 => '\u{ea}',
        0x89u8 => '\u{eb}',
        0x8au8 => '\u{e8}',
        0x8bu8 => '\u{ef}',
        0x8cu8 => '\u{ee}',
        0x8du8 => '\u{ec}',
        0x8eu8 => '\u{c4}',
        0x8fu8 => '\u{c5}',
        0x90u8 => '\u{c9}',
        0x91u8 => '\u{e6}',
        0x92u8 => '\u{c6}',
        0x93u8 => '\u{f4}',
        0x94u8 => '\u{f6}',
        0x95u8 => '\u{f2}',
        0x96u8 => '\u{fb}',
        0x97u8 => '\u{f9}',
        0x98u8 => '\u{ff}',
        0x99u8 => '\u{d6}',
        0x9au8 => '\u{dc}',
        0x9bu8 => '\u{a2}',
        0x9cu8 => '\u{a3}',
        0x9du8 => '\u{a5}',
        0x9eu8 => '\u{20a7}',
        0x9fu8 => '\u{192}',
        0xa0u8 => '\u{e1}',
        0xa1u8 => '\u{ed}',
        0xa2u8 => '\u{f3}',
        0xa3u8 => '\u{fa}',
        0xa4u8 => '\u{f1}',
        0xa5u8 => '\u{d1}',
        0xa6u8 => '\u{aa}',
        0xa7u8 => '\u{ba}',
        0xa8u8 => '\u{bf}',
        0xa9u8 => '\u{2310}',
        0xaau8 => '\u{ac}',
        0xabu8 => '\u{bd}',
        0xacu8 => '\u{bc}',
        0xadu8 => '\u{a1}',
        0xaeu8 => '\u{ab}',
        0xafu8 => '\u{bb}',
        0xb0u8 => '\u{2591}',
        0xb1u8 => '\u{2592}',
        0xb2u8 => '\u{2593}',
        0xb3u8 => '\u{2502}',
        0xb4u8 => '\u{2524}',
        0xb5u8 => '\u{2561}',
        0xb6u8 => '\u{2562}',
        0xb7u8 => '\u{2556}',
        0xb8u8 => '\u{2555}',
        0xb9u8 => '\u{2563}',
        0xbau8 => '\u{2551}',
        0xbbu8 => '\u{2557}',
        0xbcu8 => '\u{255d}',
        0xbdu8 => '\u{255c}',
        0xbeu8 => '\u{255b}',
        0xbfu8 => '\u{2510}',
        0xc0u8 => '\u{2514}',
        0xc1u8 => '\u{2534}',
        0xc2u8 => '\u{252c}',
        0xc3u8 => '\u{251c}',
        0xc4u8 => '\u{2500}',
        0xc5u8 => '\u{253c}',
        0xc6u8 => '\u{255e}',
        0xc7u8 => '\u{255f}',
        0xc8u8 => '\u{255a}',
        0xc9u8 => '\u{2554}',
        0xcau8 => '\u{2569}',
        0xcbu8 => '\u{2566}',
        0xccu8 => '\u{2560}',
        0xcdu8 => '\u{2550}',
        0xceu8 => '\u{256c}',
        0xcfu8 => '\u{2567}',
        0xd0u8 => '\u{2568}',
        0xd1u8 => '\u{2564}',
        0xd2u8 => '\u{2565}',
        0xd3u8 => '\u{2559}',
        0xd4u8 => '\u{2558}',
        0xd5u8 => '\u{2552}',
        0xd6u8 => '\u{2553}',
        0xd7u8 => '\u{256b}',
        0xd8u8 => '\u{256a}',
        0xd9u8 => '\u{2518}',
        0xdau8 => '\u{250c}',
        0xdbu8 => '\u{2588}',
        0xdcu8 => '\u{2584}',
        0xddu8 => '\u{258c}',
        0xdeu8 => '\u{2590}',
        0xdfu8 => '\u{2580}',
        0xe0u8 => '\u{3b1}',
        0xe1u8 => '\u{df}',
        0xe2u8 => '\u{393}',
        0xe3u8 => '\u{3c0}',
        0xe4u8 => '\u{3a3}',
        0xe5u8 => '\u{3c3}',
        0xe6u8 => '\u{b5}',
        0xe7u8 => '\u{3c4}',
        0xe8u8 => '\u{3a6}',
        0xe9u8 => '\u{398}',
        0xeau8 => '\u{3a9}',
        0xebu8 => '\u{3b4}',
        0xecu8 => '\u{221e}',
        0xedu8 => '\u{3c6}',
        0xeeu8 => '\u{3b5}',
        0xefu8 => '\u{2229}',
        0xf0u8 => '\u{2261}',
        0xf1u8 => '\u{b1}',
        0xf2u8 => '\u{2265}',
        0xf3u8 => '\u{2264}',
        0xf4u8 => '\u{2320}',
        0xf5u8 => '\u{2321}',
        0xf6u8 => '\u{f7}',
        0xf7u8 => '\u{2248}',
        0xf8u8 => '\u{b0}',
        0xf9u8 => '\u{2219}',
        0xfau8 => '\u{b7}',
        0xfbu8 => '\u{221a}',
        0xfcu8 => '\u{207f}',
        0xfdu8 => '\u{b2}',
        0xfeu8 => '\u{25a0}',
        0xffu8 => '\u{a0}',
    }
}

/// The byte that encodes character `c`, when `c` is one of the 256
/// code-page glyphs; `None` otherwise.
pub open spec fn cp437_byte(c: char) -> Option<u8> {
    match c {
        '\u{0}' => Some(0x00u8),
        '\u{1}' => Some(0x01u8),
        '\u{2}' => Some(0x02u8),
        '\u{3}' => Some(0x03u8),
        '\u{4}' => Some(0x04u8),
        '\u{5}' => Some(0x05u8),
        '\u{6}' => Some(0x06u8),
        '\u{7}' => Some(0x07u8),
        '\u{8}' => Some(0x08u8),
        '\u{9}' => Some(0x09u8),
        '\u{a}' => Some(0x0au8),
        '\u{b}' => Some(0x0bu8),
        '\u{c}' => Some(0x0cu8),
        '\u{d}' => Some(0x0du8),
        '\u{e}' => Some(0x0eu8),
        '\u{f}' => Some(0x0fu8),
        '\u{10}' => Some(0x10u8),
        '\u{11}' => Some(0x11u8),
        '\u{12}' => Some(0x12u8),
        '\u{13}' => Some(0x13u8),
        '\u{14}' => Some(0x14u8),
        '\u{15}' => Some(0x15u8),
        '\u{16}' => Some(0x16u8),
        '\u{17}' => Some(0x17u8),
        '\u{18}' => Some(0x18u8),
        '\u{19}' => Some(0x19u8),
        '\u{1a}' => Some(0x1au8),
        '\u{1b}' => Some(0x1bu8),
        '\u{1c}' => Some(0x1cu8),
        '\u{1d}' => Some(0x1du8),
        '\u{1e}' => Some(0x1eu8),
        '\u{1f}' => Some(0x1fu8),
        '\u{20}' => Some(0x20u8),
        '\u{21}' => Some(0x21u8),
        '\u{22}' => Some(0x22u8),
        '\u{23}' => Some(0x23u8),
        '\u{24}' => Some(0x24u8),
        '\u{25}' => Some(0x25u8),
        '\u{26}' => Some(0x26u8),
        '\u{27}' => Some(0x27u8),
        '\u{28}' => Some(0x28u8),
        '\u{29}' => Some(0x29u8),
        '\u{2a}' => Some(0x2au8),
        '\u{2b}' => Some(0x2bu8),
        '\u{2c}' => Some(0x2cu8),
        '\u{2d}' => Some(0x2du8),
        '\u{2e}' => Some(0x2eu8),
        '\u{2f}' => Some(0x2fu8),
        '\u{30}' => Some(0x30u8),
        '\u{31}' => Some(0x31u8),
        '\u{32}' => Some(0x32u8),
        '\u{33}' => Some(0x33u8),
        '\u{34}' => Some(0x34u8),
        '\u{35}' => Some(0x35u8),
        '\u{36}' => Some(0x36u8),
        '\u{37}' => Some(0x37u8),
        '\u{38}' => Some(0x38u8),
        '\u{39}' => Some(0x39u8),
        '\u{3a}' => Some(0x3au8),
        '\u{3b}' => Some(0x3bu8),
        '\u{3c}' => Some(0x3cu8),
        '\u{3d}' => Some(0x3du8),
        '\u{3e}' => Some(0x3eu8),
        '\u{3f}' => Some(0x3fu8),
        '\u{40}' => Some(0x40u8),
        '\u{41}' => Some(0x41u8),
        '\u{42}' => Some(0x42u8),
        '\u{43}' => Some(0x43u8),
        '\u{44}' => Some(0x44u8),
        '\u{45}' => Some(0x45u8),
        '\u{46}' => Some(0x46u8),
        '\u{47}' => Some(0x47u8),
        '\u{48}' => Some(0x48u8),
        '\u{49}' => Some(0x49u8),
        '\u{4a}' => Some(0x4au8),
        '\u{4b}' => Some(0x4bu8),
        '\u{4c}' => Some(0x4cu8),
        '\u{4d}' => Some(0x4du8),
        '\u{4e}' => Some(0x4eu8),
        '\u{4f}' => Some(0x4fu8),
        '\u{50}' => Some(0x50u8),
        '\u{51}' => Some(0x51u8),
        '\u{52}' => Some(0x52u8),
        '\u{53}' => Some(0x53u8),
        '\u{54}' => Some(0x54u8),
        '\u{55}' => Some(0x55u8),
        '\u{56}' => Some(0x56u8),
        '\u{57}' => Some(0x57u8),
        '\u{58}' => Some(0x58u8),
        '\u{59}' => Some(0x59u8),
        '\u{5a}' => Some(0x5au8),
        '\u{5b}' => Some(0x5bu8),
        '\u{5c}' => Some(0x5cu8),
        '\u{5d}' => Some(0x5du8),
        '\u{5e}' => Some(0x5eu8),
        '\u{5f}' => Some(0x5fu8),
        '\u{60}' => Some(0x60u8),
        '\u{61}' => Some(0x61u8),
        '\u{62}' => Some(0x62u8),
        '\u{63}' => Some(0x63u8),
        '\u{64}' => Some(0x64u8),
        '\u{65}' => Some(0x65u8),
        '\u{66}' => Some(0x66u8),
        '\u{67}' => Some(0x67u8),
        '\u{68}' => Some(0x68u8),
        '\u{69}' => Some(0x69u8),
        '\u{6a}' => Some(0x6au8),
        '\u{6b}' => Some(0x6bu8),
        '\u{6c}' => Some(0x6cu8),
        '\u{6d}' => Some(0x6du8),
        '\u{6e}' => Some(0x6eu8),
        '\u{6f}' => Some(0x6fu8),
        '\u{70}' => Some(0x70u8),
        '\u{71}' => Some(0x71u8),
        '\u{72}' => Some(0x72u8),
        '\u{73}' => Some(0x73u8),
        '\u{74}' => Some(0x74u8),
        '\u{75}' => Some(0x75u8),
        '\u{76}' => Some(0x76u8),
        '\u{77}' => Some(0x77u8),
        '\u{78}' => Some(0x78u8),
        '\u{79}' => Some(0x79u8),
        '\u{7a}' => Some(0x7au8),
        '\u{7b}' => Some(0x7bu8),
        '\u{7c}' => Some(0x7cu8),
        '\u{7d}' => Some(0x7du8),
        '\u{7e}' => Some(0x7eu8),
        '\u{7f}' => Some(0x7fu8),
        '\u{c7}' => Some(0x80u8),
        '\u{fc}' => Some(0x81u8),
        '\u{e9}' => Some(0x82u8),
        '\u{e2}' => Some(0x83u8),
        '\u{e4}' => Some(0x84u8),
        '\u{e0}' => Some(0x85u8),
        '\u{e5}' => Some(0x86u8),
        '\u{e7}' => Some(0x87u8),
        '\u{ea}' => Some(0x88u8),
        '\u{eb}' => Some(0x89u8),
        '\u{e8}' => Some(0x8au8),
        '\u{ef}' => Some(0x8bu8),
        '\u{ee}' => Some(0x8cu8),
        '\u{ec}' => Some(0x8du8),
        '\u{c4}' => Some(0x8eu8),
        '\u{c5}' => Some(0x8fu8),
        '\u{c9}' => Some(0x90u8),
        '\u{e6}' => Some(0x91u8),
        '\u{c6}' => Some(0x92u8),
        '\u{f4}' => Some(0x93u8),
        '\u{f6}' => Some(0x94u8),
        '\u{f2}' => Some(0x95u8),
        '\u{fb}' => Some(0x96u8),
        '\u{f9}' => Some(0x97u8),
        '\u{ff}' => Some(0x98u8),
        '\u{d6}' => Some(0x99u8),
        '\u{dc}' => Some(0x9au8),
        '\u{a2}' => Some(0x9bu8),
        '\u{a3}' => Some(0x9cu8),
        '\u{a5}' => Some(0x9du8),
        '\u{20a7}' => Some(0x9eu8),
        '\u{192}' => Some(0x9fu8),
        '\u{e1}' => Some(0xa0u8),
        '\u{ed}' => Some(0xa1u8),
        '\u{f3}' => Some(0xa2u8),
        '\u{fa}' => Some(0xa3u8),
        '\u{f1}' => Some(0xa4u8),
        '\u{d1}' => Some(0xa5u8),
        '\u{aa}' => Some(0xa6u8),
        '\u{ba}' => Some(0xa7u8),
        '\u{bf}' => Some(0xa8u8),
        '\u{2310}' => Some(0xa9u8),
        '\u{ac}' => Some(0xaau8),
        '\u{bd}' => Some(0xabu8),
        '\u{bc}' => Some(0xacu8),
        '\u{a1}' => Some(0xadu8),
        '\u{ab}' => Some(0xaeu8),
        '\u{bb}' => Some(0xafu8),
        '\u{2591}' => Some(0xb0u8),
        '\u{2592}' => Some(0xb1u8),
        '\u{2593}' => Some(0xb2u8),
        '\u{2502}' => Some(0xb3u8),
        '\u{2524}' => Some(0xb4u8),
        '\u{2561}' => Some(0xb5u8),
        '\u{2562}' => Some(0xb6u8),
        '\u{2556}' => Some(0xb7u8),
        '\u{2555}' => Some(0xb8u8),
        '\u{2563}' => Some(0xb9u8),
        '\u{2551}' => Some(0xbau8),
        '\u{2557}' => Some(0xbbu8),
        '\u{255d}' => Some(0xbcu8),
        '\u{255c}' => Some(0xbdu8),
        '\u{255b}' => Some(0xbeu8),
        '\u{2510}' => Some(0xbfu8),
        '\u{2514}' => Some(0xc0u8),
        '\u{2534}' => Some(0xc1u8),
        '\u{252c}' => Some(0xc2u8),
        '\u{251c}' => Some(0xc3u8),
        '\u{2500}' => Some(0xc4u8),
        '\u{253c}' => Some(0xc5u8),
        '\u{255e}' => Some(0xc6u8),
        '\u{255f}' => Some(0xc7u8),
        '\u{255a}' => Some(0xc8u8),
        '\u{2554}' => Some(0xc9u8),
        '\u{2569}' => Some(0xcau8),
        '\u{2566}' => Some(0xcbu8),
        '\u{2560}' => Some(0xccu8),
        '\u{2550}' => Some(0xcdu8),
        '\u{256c}' => Some(0xceu8),
        '\u{2567}' => Some(0xcfu8),
        '\u{2568}' => Some(0xd0u8),
        '\u{2564}' => Some(0xd1u8),
        '\u{2565}' => Some(0xd2u8),
        '\u{2559}' => Some(0xd3u8),
        '\u{2558}' => Some(0xd4u8),
        '\u{2552}' => Some(0xd5u8),
        '\u{2553}' => Some(0xd6u8),
        '\u{256b}' => Some(0xd7u8),
        '\u{256a}' => Some(0xd8u8),
        '\u{2518}' => Some(0xd9u8),
        '\u{250c}' => Some(0xdau8),
        '\u{2588}' => Some(0xdbu8),
        '\u{2584}' => Some(0xdcu8),
        '\u{258c}' => Some(0xddu8),
        '\u{2590}' => Some(0xdeu8),
        '\u{2580}' => Some(0xdfu8),
        '\u{3b1}' => Some(0xe0u8),
        '\u{df}' => Some(0xe1u8),
        '\u{393}' => Some(0xe2u8),
        '\u{3c0}' => Some(0xe3u8),
        '\u{3a3}' => Some(0xe4u8),
        '\u{3c3}' => Some(0xe5u8),
        '\u{b5}' => Some(0xe6u8),
        '\u{3c4}' => Some(0xe7u8),
        '\u{3a6}' => Some(0xe8u8),
        '\u{398}' => Some(0xe9u8),
        '\u{3a9}' => Some(0xeau8),
        '\u{3b4}' => Some(0xebu8),
        '\u{221e}' => Some(0xecu8),
        '\u{3c6}' => Some(0xedu8),
        '\u{3b5}' => Some(0xeeu8),
        '\u{2229}' => Some(0xefu8),
        '\u{2261}' => Some(0xf0u8),
        '\u{b1}' => Some(0xf1u8),
        '\u{2265}' => Some(0xf2u8),
        '\u{2264}' => Some(0xf3u8),
        '\u{2320}' => Some(0xf4u8),
        '\u{2321}' => Some(0xf5u8),
        '\u{f7}' => Some(0xf6u8),
        '\u{2248}' => Some(0xf7u8),
        '\u{b0}' => Some(0xf8u8),
        '\u{2219}' => Some(0xf9u8),
        '\u{b7}' => Some(0xfau8),
        '\u{221a}' => Some(0xfbu8),
        '\u{207f}' => Some(0xfcu8),
        '\u{b2}' => Some(0xfdu8),
        '\u{25a0}' => Some(0xfeu8),
        '\u{a0}' => Some(0xffu8),
        _ => None,
    }
}

/// Whether `c` is expressible in the code page.
pub open spec fn encodable(c: char) -> bool {
    cp437_byte(c) is Some
}

/// The text denoted by a run of raw bytes.
pub open spec fn decode_seq(s: Seq<u8>) -> Seq<char> {
    s.map_values(|b: u8| cp437_char(b))
}

/// The bytes that encode a text whose characters are all expressible.
pub open spec fn encode_seq(s: Seq<char>) -> Seq<u8> {
    s.map_values(|c: char| cp437_byte(c)->Some_0)
}

/// Decodes one byte of the code page.
pub fn decode_byte(b: u8) -> (c: char)
    ensures
        c == cp437_char(b),
{
    match b {
        0x00u8 => '\u{0}',
        0x01u8 => '\u{1}',
        0x02u8 => '\u{2}',
        0x03u8 => '\u{3}',
        0x04u8 => '\u{4}',
        0x05u8 => '\u{5}',
        0x06u8 => '\u{6}',
        0x07u8 => '\u{7}',
        0x08u8 => '\u{8}',
        0x09u8 => '\u{9}',
        0x0au8 => '\u{a}',
        0x0bu8 => '\u{b}',
        0x0cu8 => '\u{c}',
        0x0du8 => '\u{d}',
        0x0eu8 => '\u{e}',
        0x0fu8 => '\u{f}',
        0x10u8 => '\u{10}',
        0x11u8 => '\u{11}',
        0x12u8 => '\u{12}',
        0x13u8 => '\u{13}',
        0x14u8 => '\u{14}',
        0x15u8 => '\u{15}',
        0x16u8 => '\u{16}',
        0x17u8 => '\u{17}',
        0x18u8 => '\u{18}',
        0x19u8 => '\u{19}',
        0x1au8 => '\u{1a}',
        0x1bu8 => '\u{1b}',
        0x1cu8 => '\u{1c}',
        0x1du8 => '\u{1d}',
        0x1eu8 => '\u{1e}',
        0x1fu8 => '\u{1f}',
        0x20u8 => '\u{20}',
        0x21u8 => '\u{21}',
        0x22u8 => '\u{22}',
        0x23u8 => '\u{23}',
        0x24u8 => '\u{24}',
        0x25u8 => '\u{25}',
        0x26u8 => '\u{26}',
        0x27u8 => '\u{27}',
        0x28u8 => '\u{28}',
        0x29u8 => '\u{29}',
        0x2au8 => '\u{2a}',
        0x2bu8 => '\u{2b}',
        0x2cu8 => '\u{2c}',
        0x2du8 => '\u{2d}',
        0x2eu8 => '\u{2e}',
        0x2fu8 => '\u{2f}',
        0x30u8 => '\u{30}',
        0x31u8 => '\u{31}',
        0x32u8 => '\u{32}',
        0x33u8 => '\u{33}',
        0x34u8 => '\u{34}',
        0x35u8 => '\u{35}',
        0x36u8 => '\u{36}',
        0x37u8 => '\u{37}',
        0x38u8 => '\u{38}',
        0x39u8 => '\u{39}',
        0x3au8 => '\u{3a}',
        0x3bu8 => '\u{3b}',
        0x3cu8 => '\u{3c}',
        0x3du8 => '\u{3d}',
        0x3eu8 => '\u{3e}',
        0x3fu8 => '\u{3f}',
        0x40u8 => '\u{40}',
        0x41u8 => '\u{41}',
        0x42u8 => '\u{42}',
        0x43u8 => '\u{43}',
        0x44u8 => '\u{44}',
        0x45u8 => '\u{45}',
        0x46u8 => '\u{46}',
        0x47u8 => '\u{47}',
        0x48u8 => '\u{48}',
        0x49u8 => '\u{49}',
        0x4au8 => '\u{4a}',
        0x4bu8 => '\u{4b}',
        0x4cu8 => '\u{4c}',
        0x4du8 => '\u{4d}',
        0x4eu8 => '\u{4e}',
        0x4fu8 => '\u{4f}',
        0x50u8 => '\u{50}',
        0x51u8 => '\u{51}',
        0x52u8 => '\u{52}',
        0x53u8 => '\u{53}',
        0x54u8 => '\u{54}',
        0x55u8 => '\u{55}',
        0x56u8 => '\u{56}',
        0x57u8 => '\u{57}',
        0x58u8 => '\u{58}',
        0x59u8 => '\u{59}',
        0x5au8 => '\u{5a}',
        0x5bu8 => '\u{5b}',
        0x5cu8 => '\u{5c}',
        0x5du8 => '\u{5d}',
        0x5eu8 => '\u{5e}',
        0x5fu8 => '\u{5f}',
        0x60u8 => '\u{60}',
        0x61u8 => '\u{61}',
        0x62u8 => '\u{62}',
        0x63u8 => '\u{63}',
        0x64u8 => '\u{64}',
        0x65u8 => '\u{65}',
        0x66u8 => '\u{66}',
        0x67u8 => '\u{67}',
        0x68u8 => '\u{68}',
        0x69u8 => '\u{69}',
        0x6au8 => '\u{6a}',
        0x6bu8 => '\u{6b}',
        0x6cu8 => '\u{6c}',
        0x6du8 => '\u{6d}',
        0x6eu8 => '\u{6e}',
        0x6fu8 => '\u{6f}',
        0x70u8 => '\u{70}',
        0x71u8 => '\u{71}',
        0x72u8 => '\u{72}',
        0x73u8 => '\u{73}',
        0x74u8 => '\u{74}',
        0x75u8 => '\u{75}',
        0x76u8 => '\u{76}',
        0x77u8 => '\u{77}',
        0x78u8 => '\u{78}',
        0x79u8 => '\u{79}',
        0x7au8 => '\u{7a}',
        0x7bu8 => '\u{7b}',
        0x7cu8 => '\u{7c}',
        0x7du8 => '\u{7d}',
        0x7eu8 => '\u{7e}',
        0x7fu8 => '\u{7f}',
        0x80u8 => '\u{c7}',
        0x81u8 => '\u{fc}',
        0x82u8 => '\u{e9}',
        0x83u8 => '\u{e2}',
        0x84u8 => '\u{e4}',
        0x85u8 => '\u{e0}',
        0x86u8 => '\u{e5}',
        0x87u8 => '\u{e7}',
        0x88u8 => '\u{ea}',
        0x89u8 => '\u{eb}',
        0x8au8 => '\u{e8}',
        0x8bu8 => '\u{ef}',
        0x8cu8 => '\u{ee}',
        0x8du8 => '\u{ec}',
        0x8eu8 => '\u{c4}',
        0x8fu8 => '\u{c5}',
        0x90u8 => '\u{c9}',
        0x91u8 => '\u{e6}',
        0x92u8 => '\u{c6}',
        0x93u8 => '\u{f4}',
        0x94u8 => '\u{f6}',
        0x95u8 => '\u{f2}',
        0x96u8 => '\u{fb}',
        0x97u8 => '\u{f9}',
        0x98u8 => '\u{ff}',
        0x99u8 => '\u{d6}',
        0x9au8 => '\u{dc}',
        0x9bu8 => '\u{a2}',
        0x9cu8 => '\u{a3}',
        0x9du8 => '\u{a5}',
        0x9eu8 => '\u{20a7}',
        0x9fu8 => '\u{192}',
        0xa0u8 => '\u{e1}',
        0xa1u8 => '\u{ed}',
        0xa2u8 => '\u{f3}',
        0xa3u8 => '\u{fa}',
        0xa4u8 => '\u{f1}',
        0xa5u8 => '\u{d1}',
        0xa6u8 => '\u{aa}',
        0xa7u8 => '\u{ba}',
        0xa8u8 => '\u{bf}',
        0xa9u8 => '\u{2310}',
        0xaau8 => '\u{ac}',
        0xabu8 => '\u{bd}',
        0xacu8 => '\u{bc}',
        0xadu8 => '\u{a1}',
        0xaeu8 => '\u{ab}',
        0xafu8 => '\u{bb}',
        0xb0u8 => '\u{2591}',
        0xb1u8 => '\u{2592}',
        0xb2u8 => '\u{2593}',
        0xb3u8 => '\u{2502}',
        0xb4u8 => '\u{2524}',
        0xb5u8 => '\u{2561}',
        0xb6u8 => '\u{2562}',
        0xb7u8 => '\u{2556}',
        0xb8u8 => '\u{2555}',
        0xb9u8 => '\u{2563}',
        0xbau8 => '\u{2551}',
        0xbbu8 => '\u{2557}',
        0xbcu8 => '\u{255d}',
        0xbdu8 => '\u{255c}',
        0xbeu8 => '\u{255b}',
        0xbfu8 => '\u{2510}',
        0xc0u8 => '\u{2514}',
        0xc1u8 => '\u{2534}',
        0xc2u8 => '\u{252c}',
        0xc3u8 => '\u{251c}',
        0xc4u8 => '\u{2500}',
        0xc5u8 => '\u{253c}',
        0xc6u8 => '\u{255e}',
        0xc7u8 => '\u{255f}',
        0xc8u8 => '\u{255a}',
        0xc9u8 => '\u{2554}',
        0xcau8 => '\u{2569}',
        0xcbu8 => '\u{2566}',
        0xccu8 => '\u{2560}',
        0xcdu8 => '\u{2550}',
        0xceu8 => '\u{256c}',
        0xcfu8 => '\u{2567}',
        0xd0u8 => '\u{2568}',
        0xd1u8 => '\u{2564}',
        0xd2u8 => '\u{2565}',
        0xd3u8 => '\u{2559}',
        0xd4u8 => '\u{2558}',
        0xd5u8 => '\u{2552}',
        0xd6u8 => '\u{2553}',
        0xd7u8 => '\u{256b}',
        0xd8u8 => '\u{256a}',
        0xd9u8 => '\u{2518}',
        0xdau8 => '\u{250c}',
        0xdbu8 => '\u{2588}',
        0xdcu8 => '\u{2584}',
        0xddu8 => '\u{258c}',
        0xdeu8 => '\u{2590}',
        0xdfu8 => '\u{2580}',
        0xe0u8 => '\u{3b1}',
        0xe1u8 => '\u{df}',
        0xe2u8 => '\u{393}',
        0xe3u8 => '\u{3c0}',
        0xe4u8 => '\u{3a3}',
        0xe5u8 => '\u{3c3}',
        0xe6u8 => '\u{b5}',
        0xe7u8 => '\u{3c4}',
        0xe8u8 => '\u{3a6}',
        0xe9u8 => '\u{398}',
        0xeau8 => '\u{3a9}',
        0xebu8 => '\u{3b4}',
        0xecu8 => '\u{221e}',
        0xedu8 => '\u{3c6}',
        0xeeu8 => '\u{3b5}',
        0xefu8 => '\u{2229}',
        0xf0u8 => '\u{2261}',
        0xf1u8 => '\u{b1}',
        0xf2u8 => '\u{2265}',
        0xf3u8 => '\u{2264}',
        0xf4u8 => '\u{2320}',
        0xf5u8 => '\u{2321}',
        0xf6u8 => '\u{f7}',
        0xf7u8 => '\u{2248}',
        0xf8u8 => '\u{b0}',
        0xf9u8 => '\u{2219}',
        0xfau8 => '\u{b7}',
        0xfbu8 => '\u{221a}',
        0xfcu8 => '\u{207f}',
        0xfdu8 => '\u{b2}',
        0xfeu8 => '\u{25a0}',
        0xffu8 => '\u{a0}',
    }
}

/// Encodes one character, `None` when it has no code-page representation.
pub fn encode_byte(c: char) -> (r: Option<u8>)
    ensures
        r == cp437_byte(c),
{
    match c {
        '\u{0}' => Some(0x00u8),
        '\u{1}' => Some(0x01u8),
        '\u{2}' => Some(0x02u8),
        '\u{3}' => Some(0x03u8),
        '\u{4}' => Some(0x04u8),
        '\u{5}' => Some(0x05u8),
        '\u{6}' => Some(0x06u8),
        '\u{7}' => Some(0x07u8),
        '\u{8}' => Some(0x08u8),
        '\u{9}' => Some(0x09u8),
        '\u{a}' => Some(0x0au8),
        '\u{b}' => Some(0x0bu8),
        '\u{c}' => Some(0x0cu8),
        '\u{d}' => Some(0x0du8),
        '\u{e}' => Some(0x0eu8),
        '\u{f}' => Some(0x0fu8),
        '\u{10}' => Some(0x10u8),
        '\u{11}' => Some(0x11u8),
        '\u{12}' => Some(0x12u8),
        '\u{13}' => Some(0x13u8),
        '\u{14}' => Some(0x14u8),
        '\u{15}' => Some(0x15u8),
        '\u{16}' => Some(0x16u8),
        '\u{17}' => Some(0x17u8),
        '\u{18}' => Some(0x18u8),
        '\u{19}' => Some(0x19u8),
        '\u{1a}' => Some(0x1au8),
        '\u{1b}' => Some(0x1bu8),
        '\u{1c}' => Some(0x1cu8),
        '\u{1d}' => Some(0x1du8),
        '\u{1e}' => Some(0x1eu8),
        '\u{1f}' => Some(0x1fu8),
        '\u{20}' => Some(0x20u8),
        '\u{21}' => Some(0x21u8),
        '\u{22}' => Some(0x22u8),
        '\u{23}' => Some(0x23u8),
        '\u{24}' => Some(0x24u8),
        '\u{25}' => Some(0x25u8),
        '\u{26}' => Some(0x26u8),
        '\u{27}' => Some(0x27u8),
        '\u{28}' => Some(0x28u8),
        '\u{29}' => Some(0x29u8),
        '\u{2a}' => Some(0x2au8),
        '\u{2b}' => Some(0x2bu8),
        '\u{2c}' => Some(0x2cu8),
        '\u{2d}' => Some(0x2du8),
        '\u{2e}' => Some(0x2eu8),
        '\u{2f}' => Some(0x2fu8),
        '\u{30}' => Some(0x30u8),
        '\u{31}' => Some(0x31u8),
        '\u{32}' => Some(0x32u8),
        '\u{33}' => Some(0x33u8),
        '\u{34}' => Some(0x34u8),
        '\u{35}' => Some(0x35u8),
        '\u{36}' => Some(0x36u8),
        '\u{37}' => Some(0x37u8),
        '\u{38}' => Some(0x38u8),
        '\u{39}' => Some(0x39u8),
        '\u{3a}' => Some(0x3au8),
        '\u{3b}' => Some(0x3bu8),
        '\u{3c}' => Some(0x3cu8),
        '\u{3d}' => Some(0x3du8),
        '\u{3e}' => Some(0x3eu8),
        '\u{3f}' => Some(0x3fu8),
        '\u{40}' => Some(0x40u8),
        '\u{41}' => Some(0x41u8),
        '\u{42}' => Some(0x42u8),
        '\u{43}' => Some(0x43u8),
        '\u{44}' => Some(0x44u8),
        '\u{45}' => Some(0x45u8),
        '\u{46}' => Some(0x46u8),
        '\u{47}' => Some(0x47u8),
        '\u{48}' => Some(0x48u8),
        '\u{49}' => Some(0x49u8),
        '\u{4a}' => Some(0x4au8),
        '\u{4b}' => Some(0x4bu8),
        '\u{4c}' => Some(0x4cu8),
        '\u{4d}' => Some(0x4du8),
        '\u{4e}' => Some(0x4eu8),
        '\u{4f}' => Some(0x4fu8),
        '\u{50}' => Some(0x50u8),
        '\u{51}' => Some(0x51u8),
        '\u{52}' => Some(0x52u8),
        '\u{53}' => Some(0x53u8),
        '\u{54}' => Some(0x54u8),
        '\u{55}' => Some(0x55u8),
        '\u{56}' => Some(0x56u8),
        '\u{57}' => Some(0x57u8),
        '\u{58}' => Some(0x58u8),
        '\u{59}' => Some(0x59u8),
        '\u{5a}' => Some(0x5au8),
        '\u{5b}' => Some(0x5bu8),
        '\u{5c}' => Some(0x5cu8),
        '\u{5d}' => Some(0x5du8),
        '\u{5e}' => Some(0x5eu8),
        '\u{5f}' => Some(0x5fu8),
        '\u{60}' => Some(0x60u8),
        '\u{61}' => Some(0x61u8),
        '\u{62}' => Some(0x62u8),
        '\u{63}' => Some(0x63u8),
        '\u{64}' => Some(0x64u8),
        '\u{65}' => Some(0x65u8),
        '\u{66}' => Some(0x66u8),
        '\u{67}' => Some(0x67u8),
        '\u{68}' => Some(0x68u8),
        '\u{69}' => Some(0x69u8),
        '\u{6a}' => Some(0x6au8),
        '\u{6b}' => Some(0x6bu8),
        '\u{6c}' => Some(0x6cu8),
        '\u{6d}' => Some(0x6du8),
        '\u{6e}' => Some(0x6eu8),
        '\u{6f}' => Some(0x6fu8),
        '\u{70}' => Some(0x70u8),
        '\u{71}' => Some(0x71u8),
        '\u{72}' => Some(0x72u8),
        '\u{73}' => Some(0x73u8),
        '\u{74}' => Some(0x74u8),
        '\u{75}' => Some(0x75u8),
        '\u{76}' => Some(0x76u8),
        '\u{77}' => Some(0x77u8),
        '\u{78}' => Some(0x78u8),
        '\u{79}' => Some(0x79u8),
        '\u{7a}' => Some(0x7au8),
        '\u{7b}' => Some(0x7bu8),
        '\u{7c}' => Some(0x7cu8),
        '\u{7d}' => Some(0x7du8),
        '\u{7e}' => Some(0x7eu8),
        '\u{7f}' => Some(0x7fu8),
        '\u{c7}' => Some(0x80u8),
        '\u{fc}' => Some(0x81u8),
        '\u{e9}' => Some(0x82u8),
        '\u{e2}' => Some(0x83u8),
        '\u{e4}' => Some(0x84u8),
        '\u{e0}' => Some(0x85u8),
        '\u{e5}' => Some(0x86u8),
        '\u{e7}' => Some(0x87u8),
        '\u{ea}' => Some(0x88u8),
        '\u{eb}' => Some(0x89u8),
        '\u{e8}' => Some(0x8au8),
        '\u{ef}' => Some(0x8bu8),
        '\u{ee}' => Some(0x8cu8),
        '\u{ec}' => Some(0x8du8),
        '\u{c4}' => Some(0x8eu8),
        '\u{c5}' => Some(0x8fu8),
        '\u{c9}' => Some(0x90u8),
        '\u{e6}' => Some(0x91u8),
        '\u{c6}' => Some(0x92u8),
        '\u{f4}' => Some(0x93u8),
        '\u{f6}' => Some(0x94u8),
        '\u{f2}' => Some(0x95u8),
        '\u{fb}' => Some(0x96u8),
        '\u{f9}' => Some(0x97u8),
        '\u{ff}' => Some(0x98u8),
        '\u{d6}' => Some(0x99u8),
        '\u{dc}' => Some(0x9au8),
        '\u{a2}' => Some(0x9bu8),
        '\u{a3}' => Some(0x9cu8),
        '\u{a5}' => Some(0x9du8),
        '\u{20a7}' => Some(0x9eu8),
        '\u{192}' => Some(0x9fu8),
        '\u{e1}' => Some(0xa0u8),
        '\u{ed}' => Some(0xa1u8),
        '\u{f3}' => Some(0xa2u8),
        '\u{fa}' => Some(0xa3u8),
        '\u{f1}' => Some(0xa4u8),
        '\u{d1}' => Some(0xa5u8),
        '\u{aa}' => Some(0xa6u8),
        '\u{ba}' => Some(0xa7u8),
        '\u{bf}' => Some(0xa8u8),
        '\u{2310}' => Some(0xa9u8),
        '\u{ac}' => Some(0xaau8),
        '\u{bd}' => Some(0xabu8),
        '\u{bc}' => Some(0xacu8),
        '\u{a1}' => Some(0xadu8),
        '\u{ab}' => Some(0xaeu8),
        '\u{bb}' => Some(0xafu8),
        '\u{2591}' => Some(0xb0u8),
        '\u{2592}' => Some(0xb1u8),
        '\u{2593}' => Some(0xb2u8),
        '\u{2502}' => Some(0xb3u8),
        '\u{2524}' => Some(0xb4u8),
        '\u{2561}' => Some(0xb5u8),
        '\u{2562}' => Some(0xb6u8),
        '\u{2556}' => Some(0xb7u8),
        '\u{2555}' => Some(0xb8u8),
        '\u{2563}' => Some(0xb9u8),
        '\u{2551}' => Some(0xbau8),
        '\u{2557}' => Some(0xbbu8),
        '\u{255d}' => Some(0xbcu8),
        '\u{255c}' => Some(0xbdu8),
        '\u{255b}' => Some(0xbeu8),
        '\u{2510}' => Some(0xbfu8),
        '\u{2514}' => Some(0xc0u8),
        '\u{2534}' => Some(0xc1u8),
        '\u{252c}' => Some(0xc2u8),
        '\u{251c}' => Some(0xc3u8),
        '\u{2500}' => Some(0xc4u8),
        '\u{253c}' => Some(0xc5u8),
        '\u{255e}' => Some(0xc6u8),
        '\u{255f}' => Some(0xc7u8),
        '\u{255a}' => Some(0xc8u8),
        '\u{2554}' => Some(0xc9u8),
        '\u{2569}' => Some(0xcau8),
        '\u{2566}' => Some(0xcbu8),
        '\u{2560}' => Some(0xccu8),
        '\u{2550}' => Some(0xcdu8),
        '\u{256c}' => Some(0xceu8),
        '\u{2567}' => Some(0xcfu8),
        '\u{2568}' => Some(0xd0u8),
        '\u{2564}' => Some(0xd1u8),
        '\u{2565}' => Some(0xd2u8),
        '\u{2559}' => Some(0xd3u8),
        '\u{2558}' => Some(0xd4u8),
        '\u{2552}' => Some(0xd5u8),
        '\u{2553}' => Some(0xd6u8),
        '\u{256b}' => Some(0xd7u8),
        '\u{256a}' => Some(0xd8u8),
        '\u{2518}' => Some(0xd9u8),
        '\u{250c}' => Some(0xdau8),
        '\u{2588}' => Some(0xdbu8),
        '\u{2584}' => Some(0xdcu8),
        '\u{258c}' => Some(0xddu8),
        '\u{2590}' => Some(0xdeu8),
        '\u{2580}' => Some(0xdfu8),
        '\u{3b1}' => Some(0xe0u8),
        '\u{df}' => Some(0xe1u8),
        '\u{393}' => Some(0xe2u8),
        '\u{3c0}' => Some(0xe3u8),
        '\u{3a3}' => Some(0xe4u8),
        '\u{3c3}' => Some(0xe5u8),
        '\u{b5}' => Some(0xe6u8),
        '\u{3c4}' => Some(0xe7u8),
        '\u{3a6}' => Some(0xe8u8),
        '\u{398}' => Some(0xe9u8),
        '\u{3a9}' => Some(0xeau8),
        '\u{3b4}' => Some(0xebu8),
        '\u{221e}' => Some(0xecu8),
        '\u{3c6}' => Some(0xedu8),
        '\u{3b5}' => Some(0xeeu8),
        '\u{2229}' => Some(0xefu8),
        '\u{2261}' => Some(0xf0u8),
        '\u{b1}' => Some(0xf1u8),
        '\u{2265}' => Some(0xf2u8),
        '\u{2264}' => Some(0xf3u8),
        '\u{2320}' => Some(0xf4u8),
        '\u{2321}' => Some(0xf5u8),
        '\u{f7}' => Some(0xf6u8),
        '\u{2248}' => Some(0xf7u8),
        '\u{b0}' => Some(0xf8u8),
        '\u{2219}' => Some(0xf9u8),
        '\u{b7}' => Some(0xfau8),
        '\u{221a}' => Some(0xfbu8),
        '\u{207f}' => Some(0xfcu8),
        '\u{b2}' => Some(0xfdu8),
        '\u{25a0}' => Some(0xfeu8),
        '\u{a0}' => Some(0xffu8),
        _ => None,
    }
}

/// Relies on `String::push` of std: it appends the given character to the
/// end of the string.
pub assume_specification[ String::push ](s: &mut String, ch: char)
    ensures
        final(s)@ == old(s)@.push(ch),
;

/// Decodes a run of raw bytes into text.
pub fn decode_cp437(bytes: &[u8]) -> (r: String)
    ensures
        r@ == decode_seq(bytes@),
{
    let mut out = String::new();
    let mut i: usize = 0;
    while i < bytes.len()
        invariant
            i <= bytes@.len(),
            out@ == decode_seq(bytes@.subrange(0, i as int)),
        decreases bytes@.len() - i,
    {
        let c = decode_byte(bytes[i]);
        out.push(c);
        proof {
            assert(decode_seq(bytes@.subrange(0, i as int + 1)) =~= decode_seq(
                bytes@.subrange(0, i as int),
            ).push(cp437_char(bytes@[i as int])));
        }
        i = i + 1;
    }
    proof {
        assert(bytes@.subrange(0, bytes@.len() as int) =~= bytes@);
    }
    out
}

/// Decoding is the inverse of encoding on every byte.
pub proof fn lemma_decode_encode_byte(b: u8)
    ensures
        cp437_byte(cp437_char(b)) == Some(b),
{
}

/// Encoding is the inverse of decoding on every expressible character.
pub proof fn lemma_encode_decode_char(c: char)
    requires
        encodable(c),
    ensures
        cp437_char(cp437_byte(c)->Some_0) == c,
{
}

/// Law: a text whose characters are all expressible in the code page
/// round-trips unchanged through encoding to raw bytes and decoding back.
pub proof fn lemma_cp437_round_trip(s: Seq<char>)
    requires
        forall|i: int| 0 <= i < s.len() ==> encodable(#[trigger] s[i]),
    ensures
        decode_seq(encode_seq(s)) == s,
{
    assert forall|i: int| 0 <= i < s.len() implies decode_seq(encode_seq(s))[i] == s[i] by {
        lemma_encode_decode_char(s[i]);
    }
    assert(decode_seq(encode_seq(s)) =~= s);
}

/// Law: a run of raw bytes round-trips unchanged through decoding to text
/// and encoding back; in particular decoding is injective.
pub proof fn lemma_cp437_bytes_round_trip(s: Seq<u8>)
    ensures
        forall|i: int| 0 <= i < s.len() ==> encodable(#[trigger] decode_seq(s)[i]),
        encode_seq(decode_seq(s)) == s,
{
    assert forall|i: int| 0 <= i < s.len() implies encodable(#[trigger] decode_seq(s)[i])
        && encode_seq(decode_seq(s))[i] == s[i] by {
        lemma_decode_encode_byte(s[i]);
    }
    assert(encode_seq(decode_seq(s)) =~= s);
}

} // verus!
