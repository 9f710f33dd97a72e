//! The precomputed lookup table for the 8-bit sRGB to float64
//! fast-path decode.
//!
//! Each entry is the IEEE 754 double whose value is nearest to the
//! exact sRGB decode of its index: `(i/255)/12.92` below the
//! threshold, `(((i/255)+0.055)/1.055)^2.4` above it. The table is
//! split in four quarters to keep each function small.

use vstd::prelude::*;

verus! {

/// The double bits of the accurate linear value of an 8-bit sRGB
/// component.
pub open spec fn srgb8_to_f64_bits_v(encoded: u8) -> u64 {
    if encoded < 64 {
        srgb8_f64_q0_v(encoded)
    } else if encoded < 128 {
        srgb8_f64_q1_v(encoded)
    } else if encoded < 192 {
        srgb8_f64_q2_v(encoded)
    } else {
        srgb8_f64_q3_v(encoded)
    }
}

/// Look up the double bits of the accurate linear value of an 8-bit
/// sRGB component.
pub fn srgb8_to_f64_bits(encoded: u8) -> (r: u64)
    ensures
        r == srgb8_to_f64_bits_v(encoded),
{
    if encoded < 64 {
        srgb8_f64_q0(encoded)
    } else if encoded < 128 {
        srgb8_f64_q1(encoded)
    } else if encoded < 192 {
        srgb8_f64_q2(encoded)
    } else {
        srgb8_f64_q3(encoded)
    }
}

/// Entries 0 to 63 of the table, as double bits.
pub open spec fn srgb8_f64_q0_v(encoded: u8) -> u64 {
    if encoded == 0 { 0x0000000000000000u64 } else
    if encoded == 1 { 0x3F33E45677C176F7u64 } else
    if encoded == 2 { 0x3F43E45677C176F7u64 } else
    if encoded == 3 { 0x3F4DD681B3A23272u64 } else
    if encoded == 4 { 0x3F53E45677C176F7u64 } else
    if encoded == 5 { 0x3F58DD6C15B1D4B4u64 } else
    if encoded == 6 { 0x3F5DD681B3A23272u64 } else
    if encoded == 7 { 0x3F6167CBA8C94818u64 } else
    if encoded == 8 { 0x3F63E45677C176F7u64 } else
    if encoded == 9 { 0x3F6660E146B9A5D5u64 } else
    if encoded == 10 { 0x3F68DD6C15B1D4B4u64 } else
    if encoded == 11 { 0x3F6B6A31B5259C94u64 } else
    if encoded == 12 { 0x3F6E1E31D70C99DBu64 } else
    if encoded == 13 { 0x3F707C38BF8583A6u64 } else
    if encoded == 14 { 0x3F71FCC2BEED6420u64 } else
    if encoded == 15 { 0x3F7390FFAF95E277u64 } else
    if encoded == 16 { 0x3F753936CC7BC927u64 } else
    if encoded == 17 { 0x3F76F5ADDB50C913u64 } else
    if encoded == 18 { 0x3F78C6A94031B55Fu64 } else
    if encoded == 19 { 0x3F7AAC6C0FB9734Du64 } else
    if encoded == 20 { 0x3F7CA7381F9F6029u64 } else
    if encoded == 21 { 0x3F7EB74E160978CAu64 } else
    if encoded == 22 { 0x3F806E76BBDA92B7u64 } else
    if encoded == 23 { 0x3F818C2A5A8A8041u64 } else
    if encoded == 24 { 0x3F82B4E09B3F0AE2u64 } else
    if encoded == 25 { 0x3F83E8B7B3BDE962u64 } else
    if encoded == 26 { 0x3F8527CD60AF8B85u64 } else
    if encoded == 27 { 0x3F86723EEA8D3706u64 } else
    if encoded == 28 { 0x3F87C8292A3DB6B1u64 } else
    if encoded == 29 { 0x3F8929A88D67B51Eu64 } else
    if encoded == 30 { 0x3F8A96D91A8016BAu64 } else
    if encoded == 31 { 0x3F8C0FD67499FAB4u64 } else
    if encoded == 32 { 0x3F8D94BBDEFD740Cu64 } else
    if encoded == 33 { 0x3F8F25A44089883Du64 } else
    if encoded == 34 { 0x3F9061551372C693u64 } else
    if encoded == 35 { 0x3F9135F3E4C2CCE0u64 } else
    if encoded == 36 { 0x3F9210BB8642B172u64 } else
    if encoded == 37 { 0x3F92F1B8C1AE46BBu64 } else
    if encoded == 38 { 0x3F93D8F839B79C0Bu64 } else
    if encoded == 39 { 0x3F94C6866B3E9FA1u64 } else
    if encoded == 40 { 0x3F95BA6FAE794313u64 } else
    if encoded == 41 { 0x3F96B4C0380D2DECu64 } else
    if encoded == 42 { 0x3F97B5841A1BF3AAu64 } else
    if encoded == 43 { 0x3F98BCC74542ADD9u64 } else
    if encoded == 44 { 0x3F99CA95898DC8B3u64 } else
    if encoded == 45 { 0x3F9ADEFA9761C01Eu64 } else
    if encoded == 46 { 0x3F9BFA0200597BD8u64 } else
    if encoded == 47 { 0x3F9D1BB7381AEC1Du64 } else
    if encoded == 48 { 0x3F9E442595227BC9u64 } else
    if encoded == 49 { 0x3F9F73585185E1B1u64 } else
    if encoded == 50 { 0x3FA054AD45D76876u64 } else
    if encoded == 51 { 0x3FA0F31BA386FF25u64 } else
    if encoded == 52 { 0x3FA194FCB663747Au64 } else
    if encoded == 53 { 0x3FA23A55E62A6627u64 } else
    if encoded == 54 { 0x3FA2E32C8E148D0Eu64 } else
    if encoded == 55 { 0x3FA38F85FD21EACCu64 } else
    if encoded == 56 { 0x3FA43F67766310FEu64 } else
    if encoded == 57 { 0x3FA4F2D6313FA8CDu64 } else
    if encoded == 58 { 0x3FA5A9D759BA5ECDu64 } else
    if encoded == 59 { 0x3FA6647010B254ECu64 } else
    if encoded == 60 { 0x3FA722A56C2239EEu64 } else
    if encoded == 61 { 0x3FA7E47C775D2425u64 } else
    if encoded == 62 { 0x3FA8A9FA33494B05u64 } else
    { 0x3FA973239698B9CAu64 }
}

/// Entries 0 to 63 of the table, as double bits.
pub fn srgb8_f64_q0(encoded: u8) -> (r: u64)
    ensures
        r == srgb8_f64_q0_v(encoded),
{
    if encoded == 0 { 0x0000000000000000u64 } else
    if encoded == 1 { 0x3F33E45677C176F7u64 } else
    if encoded == 2 { 0x3F43E45677C176F7u64 } else
    if encoded == 3 { 0x3F4DD681B3A23272u64 } else
    if encoded == 4 { 0x3F53E45677C176F7u64 } else
    if encoded == 5 { 0x3F58DD6C15B1D4B4u64 } else
    if encoded == 6 { 0x3F5DD681B3A23272u64 } else
    if encoded == 7 { 0x3F6167CBA8C94818u64 } else
    if encoded == 8 { 0x3F63E45677C176F7u64 } else
    if encoded == 9 { 0x3F6660E146B9A5D5u64 } else
    if encoded == 10 { 0x3F68DD6C15B1D4B4u64 } else
    if encoded == 11 { 0x3F6B6A31B5259C94u64 } else
    if encoded == 12 { 0x3F6E1E31D70C99DBu64 } else
    if encoded == 13 { 0x3F707C38BF8583A6u64 } else
    if encoded == 14 { 0x3F71FCC2BEED6420u64 } else
    if encoded == 15 { 0x3F7390FFAF95E277u64 } else
    if encoded == 16 { 0x3F753936CC7BC927u64 } else
    if encoded == 17 { 0x3F76F5ADDB50C913u64 } else
    if encoded == 18 { 0x3F78C6A94031B55Fu64 } else
    if encoded == 19 { 0x3F7AAC6C0FB9734Du64 } else
    if encoded == 20 { 0x3F7CA7381F9F6029u64 } else
    if encoded == 21 { 0x3F7EB74E160978CAu64 } else
    if encoded == 22 { 0x3F806E76BBDA92B7u64 } else
    if encoded == 23 { 0x3F818C2A5A8A8041u64 } else
    if encoded == 24 { 0x3F82B4E09B3F0AE2u64 } else
    if encoded == 25 { 0x3F83E8B7B3BDE962u64 } else
    if encoded == 26 { 0x3F8527CD60AF8B85u64 } else
    if encoded == 27 { 0x3F86723EEA8D3706u64 } else
    if encoded == 28 { 0x3F87C8292A3DB6B1u64 } else
    if encoded == 29 { 0x3F8929A88D67B51Eu64 } else
    if encoded == 30 { 0x3F8A96D91A8016BAu64 } else
    if encoded == 31 { 0x3F8C0FD67499FAB4u64 } else
    if encoded == 32 { 0x3F8D94BBDEFD740Cu64 } else
    if encoded == 33 { 0x3F8F25A44089883Du64 } else
    if encoded == 34 { 0x3F9061551372C693u64 } else
    if encoded == 35 { 0x3F9135F3E4C2CCE0u64 } else
    if encoded == 36 { 0x3F9210BB8642B172u64 } else
    if encoded == 37 { 0x3F92F1B8C1AE46BBu64 } else
    if encoded == 38 { 0x3F93D8F839B79C0Bu64 } else
    if encoded == 39 { 0x3F94C6866B3E9FA1u64 } else
    if encoded == 40 { 0x3F95BA6FAE794313u64 } else
    if encoded == 41 { 0x3F96B4C0380D2DECu64 } else
    if encoded == 42 { 0x3F97B5841A1BF3AAu64 } else
    if encoded == 43 { 0x3F98BCC74542ADD9u64 } else
    if encoded == 44 { 0x3F99CA95898DC8B3u64 } else
    if encoded == 45 { 0x3F9ADEFA9761C01Eu64 } else
    if encoded == 46 { 0x3F9BFA0200597BD8u64 } else
    if encoded == 47 { 0x3F9D1BB7381AEC1Du64 } else
    if encoded == 48 { 0x3F9E442595227BC9u64 } else
    if encoded == 49 { 0x3F9F73585185E1B1u64 } else
    if encoded == 50 { 0x3FA054AD45D76876u64 } else
    if encoded == 51 { 0x3FA0F31BA386FF25u64 } else
    if encoded == 52 { 0x3FA194FCB663747Au64 } else
    if encoded == 53 { 0x3FA23A55E62A6627u64 } else
    if encoded == 54 { 0x3FA2E32C8E148D0Eu64 } else
    if encoded == 55 { 0x3FA38F85FD21EACCu64 } else
    if encoded == 56 { 0x3FA43F67766310FEu64 } else
    if encoded == 57 { 0x3FA4F2D6313FA8CDu64 } else
    if encoded == 58 { 0x3FA5A9D759BA5ECDu64 } else
    if encoded == 59 { 0x3FA6647010B254ECu64 } else
    if encoded == 60 { 0x3FA722A56C2239EEu64 } else
    if encoded == 61 { 0x3FA7E47C775D2425u64 } else
    if encoded == 62 { 0x3FA8A9FA33494B05u64 } else
    { 0x3FA973239698B9CAu64 }
}

/// Entries 64 to 127 of the table, as double bits.
pub open spec fn srgb8_f64_q1_v(encoded: u8) -> u64 {
    if encoded == 64 { 0x3FAA3FFD8E001387u64 } else
    if encoded == 65 { 0x3FAB108CFC6B7FBDu64 } else
    if encoded == 66 { 0x3FABE4D6BB31D520u64 } else
    if encoded == 67 { 0x3FACBCDF9A4616F0u64 } else
    if encoded == 68 { 0x3FAD98AC60675830u64 } else
    if encoded == 69 { 0x3FAE7841CB4F16DDu64 } else
    if encoded == 70 { 0x3FAF5BA48FDE2046u64 } else
    if encoded == 71 { 0x3FB0216CAD240764u64 } else
    if encoded == 72 { 0x3FB096F2671EB814u64 } else
    if encoded == 73 { 0x3FB10E65C38A5191u64 } else
    if encoded == 74 { 0x3FB187C90BF8BCE1u64 } else
    if encoded == 75 { 0x3FB2031E85F5D6DAu64 } else
    if encoded == 76 { 0x3FB28068731A1952u64 } else
    if encoded == 77 { 0x3FB2FFA9111CB94Au64 } else
    if encoded == 78 { 0x3FB380E299E53F8Fu64 } else
    if encoded == 79 { 0x3FB40417439CA10Fu64 } else
    if encoded == 80 { 0x3FB4894940BDDBFAu64 } else
    if encoded == 81 { 0x3FB5107AC0261E59u64 } else
    if encoded == 82 { 0x3FB599ADED247AA9u64 } else
    if encoded == 83 { 0x3FB624E4EF892ED2u64 } else
    if encoded == 84 { 0x3FB6B221EBB4817Eu64 } else
    if encoded == 85 { 0x3FB7416702A539D1u64 } else
    if encoded == 86 { 0x3FB7D2B65206B525u64 } else
    if encoded == 87 { 0x3FB86611F43E9E67u64 } else
    if encoded == 88 { 0x3FB8FB7C007A4A6Du64 } else
    if encoded == 89 { 0x3FB992F68ABBBC89u64 } else
    if encoded == 90 { 0x3FBA2C83A3E6566Au64 } else
    if encoded == 91 { 0x3FBAC82559CB3642u64 } else
    if encoded == 92 { 0x3FBB65DDB7354602u64 } else
    if encoded == 93 { 0x3FBC05AEC3F4FE5Eu64 } else
    if encoded == 94 { 0x3FBCA79A84EBE02Eu64 } else
    if encoded == 95 { 0x3FBD4BA2FC17A6A4u64 } else
    if encoded == 96 { 0x3FBDF1CA289D34B6u64 } else
    if encoded == 97 { 0x3FBE9A1206D34002u64 } else
    if encoded == 98 { 0x3FBF447C904CBB4Cu64 } else
    if encoded == 99 { 0x3FBFF10BBBE302C0u64 } else
    if encoded == 100 { 0x3FC04FE0BEDFE5F1u64 } else
    if encoded == 101 { 0x3FC0A84FE3B36D8Eu64 } else
    if encoded == 102 { 0x3FC101D443DFC06Du64 } else
    if encoded == 103 { 0x3FC15C6ED58EEFDEu64 } else
    if encoded == 104 { 0x3FC1B8208DA5FEF0u64 } else
    if encoded == 105 { 0x3FC214EA5FC9514Au64 } else
    if encoded == 106 { 0x3FC272CD3E610121u64 } else
    if encoded == 107 { 0x3FC2D1CA1A9D1CFBu64 } else
    if encoded == 108 { 0x3FC331E1E479CDF4u64 } else
    if encoded == 109 { 0x3FC393158AC3674Du64 } else
    if encoded == 110 { 0x3FC3F565FB1A5FD3u64 } else
    if encoded == 111 { 0x3FC458D421F735DDu64 } else
    if encoded == 112 { 0x3FC4BD60EAAE3E73u64 } else
    if encoded == 113 { 0x3FC5230D3F736034u64 } else
    if encoded == 114 { 0x3FC589DA095DBA9Fu64 } else
    if encoded == 115 { 0x3FC5F1C8306B3A3Au64 } else
    if encoded == 116 { 0x3FC65AD89B841A29u64 } else
    if encoded == 117 { 0x3FC6C50C307E53BFu64 } else
    if encoded == 118 { 0x3FC73063D420FC7Du64 } else
    if encoded == 119 { 0x3FC79CE06A2792FFu64 } else
    if encoded == 120 { 0x3FC80A82D5453B5Au64 } else
    if encoded == 121 { 0x3FC8794BF727EB3Eu64 } else
    if encoded == 122 { 0x3FC8E93CB07B8676u64 } else
    if encoded == 123 { 0x3FC95A55E0ECEC09u64 } else
    if encoded == 124 { 0x3FC9CC98672CF47Eu64 } else
    if encoded == 125 { 0x3FCA400520F3619Bu64 } else
    if encoded == 126 { 0x3FCAB49CEB01C000u64 } else
    { 0x3FCB2A60A1263B05u64 }
}

/// Entries 64 to 127 of the table, as double bits.
pub fn srgb8_f64_q1(encoded: u8) -> (r: u64)
    ensures
        r == srgb8_f64_q1_v(encoded),
{
    if encoded == 64 { 0x3FAA3FFD8E001387u64 } else
    if encoded == 65 { 0x3FAB108CFC6B7FBDu64 } else
    if encoded == 66 { 0x3FABE4D6BB31D520u64 } else
    if encoded == 67 { 0x3FACBCDF9A4616F0u64 } else
    if encoded == 68 { 0x3FAD98AC60675830u64 } else
    if encoded == 69 { 0x3FAE7841CB4F16DDu64 } else
    if encoded == 70 { 0x3FAF5BA48FDE2046u64 } else
    if encoded == 71 { 0x3FB0216CAD240764u64 } else
    if encoded == 72 { 0x3FB096F2671EB814u64 } else
    if encoded == 73 { 0x3FB10E65C38A5191u64 } else
    if encoded == 74 { 0x3FB187C90BF8BCE1u64 } else
    if encoded == 75 { 0x3FB2031E85F5D6DAu64 } else
    if encoded == 76 { 0x3FB28068731A1952u64 } else
    if encoded == 77 { 0x3FB2FFA9111CB94Au64 } else
    if encoded == 78 { 0x3FB380E299E53F8Fu64 } else
    if encoded == 79 { 0x3FB40417439CA10Fu64 } else
    if encoded == 80 { 0x3FB4894940BDDBFAu64 } else
    if encoded == 81 { 0x3FB5107AC0261E59u64 } else
    if encoded == 82 { 0x3FB599ADED247AA9u64 } else
    if encoded == 83 { 0x3FB624E4EF892ED2u64 } else
    if encoded == 84 { 0x3FB6B221EBB4817Eu64 } else
    if encoded == 85 { 0x3FB7416702A539D1u64 } else
    if encoded == 86 { 0x3FB7D2B65206B525u64 } else
    if encoded == 87 { 0x3FB86611F43E9E67u64 } else
    if encoded == 88 { 0x3FB8FB7C007A4A6Du64 } else
    if encoded == 89 { 0x3FB992F68ABBBC89u64 } else
    if encoded == 90 { 0x3FBA2C83A3E6566Au64 } else
    if encoded == 91 { 0x3FBAC82559CB3642u64 } else
    if encoded == 92 { 0x3FBB65DDB7354602u64 } else
    if encoded == 93 { 0x3FBC05AEC3F4FE5Eu64 } else
    if encoded == 94 { 0x3FBCA79A84EBE02Eu64 } else
    if encoded == 95 { 0x3FBD4BA2FC17A6A4u64 } else
    if encoded == 96 { 0x3FBDF1CA289D34B6u64 } else
    if encoded == 97 { 0x3FBE9A1206D34002u64 } else
    if encoded == 98 { 0x3FBF447C904CBB4Cu64 } else
    if encoded == 99 { 0x3FBFF10BBBE302C0u64 } else
    if encoded == 100 { 0x3FC04FE0BEDFE5F1u64 } else
    if encoded == 101 { 0x3FC0A84FE3B36D8Eu64 } else
    if encoded == 102 { 0x3FC101D443DFC06Du64 } else
    if encoded == 103 { 0x3FC15C6ED58EEFDEu64 } else
    if encoded == 104 { 0x3FC1B8208DA5FEF0u64 } else
    if encoded == 105 { 0x3FC214EA5FC9514Au64 } else
    if encoded == 106 { 0x3FC272CD3E610121u64 } else
    if encoded == 107 { 0x3FC2D1CA1A9D1CFBu64 } else
    if encoded == 108 { 0x3FC331E1E479CDF4u64 } else
    if encoded == 109 { 0x3FC393158AC3674Du64 } else
    if encoded == 110 { 0x3FC3F565FB1A5FD3u64 } else
    if encoded == 111 { 0x3FC458D421F735DDu64 } else
    if encoded == 112 { 0x3FC4BD60EAAE3E73u64 } else
    if encoded == 113 { 0x3FC5230D3F736034u64 } else
    if encoded == 114 { 0x3FC589DA095DBA9Fu64 } else
    if encoded == 115 { 0x3FC5F1C8306B3A3Au64 } else
    if encoded == 116 { 0x3FC65AD89B841A29u64 } else
    if encoded == 117 { 0x3FC6C50C307E53BFu64 } else
    if encoded == 118 { 0x3FC73063D420FC7Du64 } else
    if encoded == 119 { 0x3FC79CE06A2792FFu64 } else
    if encoded == 120 { 0x3FC80A82D5453B5Au64 } else
    if encoded == 121 { 0x3FC8794BF727EB3Eu64 } else
    if encoded == 122 { 0x3FC8E93CB07B8676u64 } else
    if encoded == 123 { 0x3FC95A55E0ECEC09u64 } else
    if encoded == 124 { 0x3FC9CC98672CF47Eu64 } else
    if encoded == 125 { 0x3FCA400520F3619Bu64 } else
    if encoded == 126 { 0x3FCAB49CEB01C000u64 } else
    { 0x3FCB2A60A1263B05u64 }
}

/// Entries 128 to 191 of the table, as double bits.
pub open spec fn srgb8_f64_q2_v(encoded: u8) -> u64 {
    if encoded == 128 { 0x3FCBA1511E3E6329u64 } else
    if encoded == 129 { 0x3FCC196F3C39E76Eu64 } else
    if encoded == 130 { 0x3FCC92BBD41D41FBu64 } else
    if encoded == 131 { 0x3FCD0D37BE045850u64 } else
    if encoded == 132 { 0x3FCD88E3D1250F61u64 } else
    if encoded == 133 { 0x3FCE05C0E3D1D3DBu64 } else
    if encoded == 134 { 0x3FCE83CFCB7C16EEu64 } else
    if encoded == 135 { 0x3FCF03115CB6BFCEu64 } else
    if encoded == 136 { 0x3FCF83866B38924Au64 } else
    if encoded == 137 { 0x3FD00297E4EF4550u64 } else
    if encoded == 138 { 0x3FD0440725571779u64 } else
    if encoded == 139 { 0x3FD086115F6BEB39u64 } else
    if encoded == 140 { 0x3FD0C8B6FB5C735Au64 } else
    if encoded == 141 { 0x3FD10BF860EF0397u64 } else
    if encoded == 142 { 0x3FD14FD5F782A5A5u64 } else
    if encoded == 143 { 0x3FD1945026102995u64 } else
    if encoded == 144 { 0x3FD1D967532B31B0u64 } else
    if encoded == 145 { 0x3FD21F1BE50339E4u64 } else
    if encoded == 146 { 0x3FD2656E41649AE2u64 } else
    if encoded == 147 { 0x3FD2AC5ECDB988F8u64 } else
    if encoded == 148 { 0x3FD2F3EDEF0B0ED5u64 } else
    if encoded == 149 { 0x3FD33C1C0A020436u64 } else
    if encoded == 150 { 0x3FD384E982E800AEu64 } else
    if encoded == 151 { 0x3FD3CE56BDA84A7Fu64 } else
    if encoded == 152 { 0x3FD418641DD0C1BBu64 } else
    if encoded == 153 { 0x3FD463120692C7ADu64 } else
    if encoded == 154 { 0x3FD4AE60DAC4229Cu64 } else
    if encoded == 155 { 0x3FD4FA50FCDFDE13u64 } else
    if encoded == 156 { 0x3FD546E2CF0727A6u64 } else
    if encoded == 157 { 0x3FD59416B3022856u64 } else
    if encoded == 158 { 0x3FD5E1ED0A40DAA8u64 } else
    if encoded == 159 { 0x3FD6306635DBDD79u64 } else
    if encoded == 160 { 0x3FD67F829695439Fu64 } else
    if encoded == 161 { 0x3FD6CF428CD96077u64 } else
    if encoded == 162 { 0x3FD71FA678BF915Cu64 } else
    if encoded == 163 { 0x3FD770AEBA0B0428u64 } else
    if encoded == 164 { 0x3FD7C25BB02B7AC2u64 } else
    if encoded == 165 { 0x3FD814ADBA3E0BD4u64 } else
    if encoded == 166 { 0x3FD867A5370DE0AEu64 } else
    if encoded == 167 { 0x3FD8BB428514F065u64 } else
    if encoded == 168 { 0x3FD90F86027CB84Bu64 } else
    if encoded == 169 { 0x3FD964700D1EF1B0u64 } else
    if encoded == 170 { 0x3FD9BA010286451Eu64 } else
    if encoded == 171 { 0x3FDA10393FEEFAFCu64 } else
    if encoded == 172 { 0x3FDA67192247A9BBu64 } else
    if encoded == 173 { 0x3FDABEA10631E191u64 } else
    if encoded == 174 { 0x3FDB16D14802D5C7u64 } else
    if encoded == 175 { 0x3FDB6FAA43C403BAu64 } else
    if encoded == 176 { 0x3FDBC92C5533D782u64 } else
    if encoded == 177 { 0x3FDC2357D7C64E5Cu64 } else
    if encoded == 178 { 0x3FDC7E2D26A596DCu64 } else
    if encoded == 179 { 0x3FDCD9AC9CB2AEF0u64 } else
    if encoded == 180 { 0x3FDD35D69485FFC2u64 } else
    if encoded == 181 { 0x3FDD92AB686FF77Eu64 } else
    if encoded == 182 { 0x3FDDF02B7279A10Au64 } else
    if encoded == 183 { 0x3FDE4E570C6539C1u64 } else
    if encoded == 184 { 0x3FDEAD2E8FAEC523u64 } else
    if encoded == 185 { 0x3FDF0CB2558C9EA4u64 } else
    if encoded == 186 { 0x3FDF6CE2B6F00980u64 } else
    if encoded == 187 { 0x3FDFCDC00C85BEC1u64 } else
    if encoded == 188 { 0x3FE017A5575B3CAFu64 } else
    if encoded == 189 { 0x3FE048C17AD3C049u64 } else
    if encoded == 190 { 0x3FE07A349C9D9836u64 } else
    { 0x3FE0ABFEE888C04Eu64 }
}

/// Entries 128 to 191 of the table, as double bits.
pub fn srgb8_f64_q2(encoded: u8) -> (r: u64)
    ensures
        r == srgb8_f64_q2_v(encoded),
{
    if encoded == 128 { 0x3FCBA1511E3E6329u64 } else
    if encoded == 129 { 0x3FCC196F3C39E76Eu64 } else
    if encoded == 130 { 0x3FCC92BBD41D41FBu64 } else
    if encoded == 131 { 0x3FCD0D37BE045850u64 } else
    if encoded == 132 { 0x3FCD88E3D1250F61u64 } else
    if encoded == 133 { 0x3FCE05C0E3D1D3DBu64 } else
    if encoded == 134 { 0x3FCE83CFCB7C16EEu64 } else
    if encoded == 135 { 0x3FCF03115CB6BFCEu64 } else
    if encoded == 136 { 0x3FCF83866B38924Au64 } else
    if encoded == 137 { 0x3FD00297E4EF4550u64 } else
    if encoded == 138 { 0x3FD0440725571779u64 } else
    if encoded == 139 { 0x3FD086115F6BEB39u64 } else
    if encoded == 140 { 0x3FD0C8B6FB5C735Au64 } else
    if encoded == 141 { 0x3FD10BF860EF0397u64 } else
    if encoded == 142 { 0x3FD14FD5F782A5A5u64 } else
    if encoded == 143 { 0x3FD1945026102995u64 } else
    if encoded == 144 { 0x3FD1D967532B31B0u64 } else
    if encoded == 145 { 0x3FD21F1BE50339E4u64 } else
    if encoded == 146 { 0x3FD2656E41649AE2u64 } else
    if encoded == 147 { 0x3FD2AC5ECDB988F8u64 } else
    if encoded == 148 { 0x3FD2F3EDEF0B0ED5u64 } else
    if encoded == 149 { 0x3FD33C1C0A020436u64 } else
    if encoded == 150 { 0x3FD384E982E800AEu64 } else
    if encoded == 151 { 0x3FD3CE56BDA84A7Fu64 } else
    if encoded == 152 { 0x3FD418641DD0C1BBu64 } else
    if encoded == 153 { 0x3FD463120692C7ADu64 } else
    if encoded == 154 { 0x3FD4AE60DAC4229Cu64 } else
    if encoded == 155 { 0x3FD4FA50FCDFDE13u64 } else
    if encoded == 156 { 0x3FD546E2CF0727A6u64 } else
    if encoded == 157 { 0x3FD59416B3022856u64 } else
    if encoded == 158 { 0x3FD5E1ED0A40DAA8u64 } else
    if encoded == 159 { 0x3FD6306635DBDD79u64 } else
    if encoded == 160 { 0x3FD67F829695439Fu64 } else
    if encoded == 161 { 0x3FD6CF428CD96077u64 } else
    if encoded == 162 { 0x3FD71FA678BF915Cu64 } else
    if encoded == 163 { 0x3FD770AEBA0B0428u64 } else
    if encoded == 164 { 0x3FD7C25BB02B7AC2u64 } else
    if encoded == 165 { 0x3FD814ADBA3E0BD4u64 } else
    if encoded == 166 { 0x3FD867A5370DE0AEu64 } else
    if encoded == 167 { 0x3FD8BB428514F065u64 } else
    if encoded == 168 { 0x3FD90F86027CB84Bu64 } else
    if encoded == 169 { 0x3FD964700D1EF1B0u64 } else
    if encoded == 170 { 0x3FD9BA010286451Eu64 } else
    if encoded == 171 { 0x3FDA10393FEEFAFCu64 } else
    if encoded == 172 { 0x3FDA67192247A9BBu64 } else
    if encoded == 173 { 0x3FDABEA10631E191u64 } else
    if encoded == 174 { 0x3FDB16D14802D5C7u64 } else
    if encoded == 175 { 0x3FDB6FAA43C403BAu64 } else
    if encoded == 176 { 0x3FDBC92C5533D782u64 } else
    if encoded == 177 { 0x3FDC2357D7C64E5Cu64 } else
    if encoded == 178 { 0x3FDC7E2D26A596DCu64 } else
    if encoded == 179 { 0x3FDCD9AC9CB2AEF0u64 } else
    if encoded == 180 { 0x3FDD35D69485FFC2u64 } else
    if encoded == 181 { 0x3FDD92AB686FF77Eu64 } else
    if encoded == 182 { 0x3FDDF02B7279A10Au64 } else
    if encoded == 183 { 0x3FDE4E570C6539C1u64 } else
    if encoded == 184 { 0x3FDEAD2E8FAEC523u64 } else
    if encoded == 185 { 0x3FDF0CB2558C9EA4u64 } else
    if encoded == 186 { 0x3FDF6CE2B6F00980u64 } else
    if encoded == 187 { 0x3FDFCDC00C85BEC1u64 } else
    if encoded == 188 { 0x3FE017A5575B3CAFu64 } else
    if encoded == 189 { 0x3FE048C17AD3C049u64 } else
    if encoded == 190 { 0x3FE07A349C9D9836u64 } else
    { 0x3FE0ABFEE888C04Eu64 }
}

/// Entries 192 to 255 of the table, as double bits.
pub open spec fn srgb8_f64_q3_v(encoded: u8) -> u64 {
    if encoded == 192 { 0x3FE0DE208A4444C7u64 } else
    if encoded == 193 { 0x3FE11099AD5E83E9u64 } else
    if encoded == 194 { 0x3FE1436A7D456EEDu64 } else
    if encoded == 195 { 0x3FE176932546CA12u64 } else
    if encoded == 196 { 0x3FE1AA13D0906BD8u64 } else
    if encoded == 197 { 0x3FE1DDECAA307B83u64 } else
    if encoded == 198 { 0x3FE2121DDD15AECBu64 } else
    if encoded == 199 { 0x3FE246A7940F86CFu64 } else
    if encoded == 200 { 0x3FE27B89F9CE8C4Au64 } else
    if encoded == 201 { 0x3FE2B0C538E48B06u64 } else
    if encoded == 202 { 0x3FE2E6597BC4CC9Fu64 } else
    if encoded == 203 { 0x3FE31C46ECC4528Bu64 } else
    if encoded == 204 { 0x3FE3528DB61A0F70u64 } else
    if encoded == 205 { 0x3FE3892E01DF1FCBu64 } else
    if encoded == 206 { 0x3FE3C027FA0F01E9u64 } else
    if encoded == 207 { 0x3FE3F77BC887CD39u64 } else
    if encoded == 208 { 0x3FE42F29970A68F7u64 } else
    if encoded == 209 { 0x3FE467318F3AC22Bu64 } else
    if encoded == 210 { 0x3FE49F93DAA00112u64 } else
    if encoded == 211 { 0x3FE4D850A2A4BDDFu64 } else
    if encoded == 212 { 0x3FE51168109734E3u64 } else
    if encoded == 213 { 0x3FE54ADA4DA97A1Au64 } else
    if encoded == 214 { 0x3FE584A782F1AC21u64 } else
    if encoded == 215 { 0x3FE5BECFD96A2697u64 } else
    if encoded == 216 { 0x3FE5F95379F1B3EAu64 } else
    if encoded == 217 { 0x3FE634328D4BBE96u64 } else
    if encoded == 218 { 0x3FE66F6D3C2081CFu64 } else
    if encoded == 219 { 0x3FE6AB03AEFD39A9u64 } else
    if encoded == 220 { 0x3FE6E6F60E5452AFu64 } else
    if encoded == 221 { 0x3FE72344827D98F2u64 } else
    if encoded == 222 { 0x3FE75FEF33B66698u64 } else
    if encoded == 223 { 0x3FE79CF64A21D1E1u64 } else
    if encoded == 224 { 0x3FE7DA59EDC8DAAEu64 } else
    if encoded == 225 { 0x3FE8181A469A9786u64 } else
    if encoded == 226 { 0x3FE856377C6C6222u64 } else
    if encoded == 227 { 0x3FE894B1B6FA0376u64 } else
    if encoded == 228 { 0x3FE8D3891DE5DF47u64 } else
    if encoded == 229 { 0x3FE912BDD8B91F42u64 } else
    if encoded == 230 { 0x3FE952500EE3DDA3u64 } else
    if encoded == 231 { 0x3FE9923FE7BD4F64u64 } else
    if encoded == 232 { 0x3FE9D28D8A83EDFAu64 } else
    if encoded == 233 { 0x3FEA13391E5DA09Eu64 } else
    if encoded == 234 { 0x3FEA5442CA57E52Cu64 } else
    if encoded == 235 { 0x3FEA95AAB567F88Eu64 } else
    if encoded == 236 { 0x3FEAD771066AFEC1u64 } else
    if encoded == 237 { 0x3FEB1995E4262A66u64 } else
    if encoded == 238 { 0x3FEB5C197546E3F6u64 } else
    if encoded == 239 { 0x3FEB9EFBE062F083u64 } else
    if encoded == 240 { 0x3FEBE23D4BF8981Au64 } else
    if encoded == 241 { 0x3FEC25DDDE6ECBBBu64 } else
    if encoded == 242 { 0x3FEC69DDBE154AF2u64 } else
    if encoded == 243 { 0x3FECAE3D1124C90Du64 } else
    if encoded == 244 { 0x3FECF2FBFDBF11EDu64 } else
    if encoded == 245 { 0x3FED381AA9EF2E7Fu64 } else
    if encoded == 246 { 0x3FED7D993BA988D3u64 } else
    if encoded == 247 { 0x3FEDC377D8CC0FD2u64 } else
    if encoded == 248 { 0x3FEE09B6A71E5AA4u64 } else
    if encoded == 249 { 0x3FEE5055CC51CBB2u64 } else
    if encoded == 250 { 0x3FEE97556E01B350u64 } else
    if encoded == 251 { 0x3FEEDEB5B1B37216u64 } else
    if encoded == 252 { 0x3FEF2676BCD69ADCu64 } else
    if encoded == 253 { 0x3FEF6E98B4C51465u64 } else
    if encoded == 254 { 0x3FEFB71BBEC33AB1u64 } else
    { 0x3FF0000000000000u64 }
}

/// Entries 192 to 255 of the table, as double bits.
pub fn srgb8_f64_q3(encoded: u8) -> (r: u64)
    ensures
        r == srgb8_f64_q3_v(encoded),
{
    if encoded == 192 { 0x3FE0DE208A4444C7u64 } else
    if encoded == 193 { 0x3FE11099AD5E83E9u64 } else
    if encoded == 194 { 0x3FE1436A7D456EEDu64 } else
    if encoded == 195 { 0x3FE176932546CA12u64 } else
    if encoded == 196 { 0x3FE1AA13D0906BD8u64 } else
    if encoded == 197 { 0x3FE1DDECAA307B83u64 } else
    if encoded == 198 { 0x3FE2121DDD15AECBu64 } else
    if encoded == 199 { 0x3FE246A7940F86CFu64 } else
    if encoded == 200 { 0x3FE27B89F9CE8C4Au64 } else
    if encoded == 201 { 0x3FE2B0C538E48B06u64 } else
    if encoded == 202 { 0x3FE2E6597BC4CC9Fu64 } else
    if encoded == 203 { 0x3FE31C46ECC4528Bu64 } else
    if encoded == 204 { 0x3FE3528DB61A0F70u64 } else
    if encoded == 205 { 0x3FE3892E01DF1FCBu64 } else
    if encoded == 206 { 0x3FE3C027FA0F01E9u64 } else
    if encoded == 207 { 0x3FE3F77BC887CD39u64 } else
    if encoded == 208 { 0x3FE42F29970A68F7u64 } else
    if encoded == 209 { 0x3FE467318F3AC22Bu64 } else
    if encoded == 210 { 0x3FE49F93DAA00112u64 } else
    if encoded == 211 { 0x3FE4D850A2A4BDDFu64 } else
    if encoded == 212 { 0x3FE51168109734E3u64 } else
    if encoded == 213 { 0x3FE54ADA4DA97A1Au64 } else
    if encoded == 214 { 0x3FE584A782F1AC21u64 } else
    if encoded == 215 { 0x3FE5BECFD96A2697u64 } else
    if encoded == 216 { 0x3FE5F95379F1B3EAu64 } else
    if encoded == 217 { 0x3FE634328D4BBE96u64 } else
    if encoded == 218 { 0x3FE66F6D3C2081CFu64 } else
    if encoded == 219 { 0x3FE6AB03AEFD39A9u64 } else
    if encoded == 220 { 0x3FE6E6F60E5452AFu64 } else
    if encoded == 221 { 0x3FE72344827D98F2u64 } else
    if encoded == 222 { 0x3FE75FEF33B66698u64 } else
    if encoded == 223 { 0x3FE79CF64A21D1E1u64 } else
    if encoded == 224 { 0x3FE7DA59EDC8DAAEu64 } else
    if encoded == 225 { 0x3FE8181A469A9786u64 } else
    if encoded == 226 { 0x3FE856377C6C6222u64 } else
    if encoded == 227 { 0x3FE894B1B6FA0376u64 } else
    if encoded == 228 { 0x3FE8D3891DE5DF47u64 } else
    if encoded == 229 { 0x3FE912BDD8B91F42u64 } else
    if encoded == 230 { 0x3FE952500EE3DDA3u64 } else
    if encoded == 231 { 0x3FE9923FE7BD4F64u64 } else
    if encoded == 232 { 0x3FE9D28D8A83EDFAu64 } else
    if encoded == 233 { 0x3FEA13391E5DA09Eu64 } else
    if encoded == 234 { 0x3FEA5442CA57E52Cu64 } else
    if encoded == 235 { 0x3FEA95AAB567F88Eu64 } else
    if encoded == 236 { 0x3FEAD771066AFEC1u64 } else
    if encoded == 237 { 0x3FEB1995E4262A66u64 } else
    if encoded == 238 { 0x3FEB5C197546E3F6u64 } else
    if encoded == 239 { 0x3FEB9EFBE062F083u64 } else
    if encoded == 240 { 0x3FEBE23D4BF8981Au64 } else
    if encoded == 241 { 0x3FEC25DDDE6ECBBBu64 } else
    if encoded == 242 { 0x3FEC69DDBE154AF2u64 } else
    if encoded == 243 { 0x3FECAE3D1124C90Du64 } else
    if encoded == 244 { 0x3FECF2FBFDBF11EDu64 } else
    if encoded == 245 { 0x3FED381AA9EF2E7Fu64 } else
    if encoded == 246 { 0x3FED7D993BA988D3u64 } else
    if encoded == 247 { 0x3FEDC377D8CC0FD2u64 } else
    if encoded == 248 { 0x3FEE09B6A71E5AA4u64 } else
    if encoded == 249 { 0x3FEE5055CC51CBB2u64 } else
    if encoded == 250 { 0x3FEE97556E01B350u64 } else
    if encoded == 251 { 0x3FEEDEB5B1B37216u64 } else
    if encoded == 252 { 0x3FEF2676BCD69ADCu64 } else
    if encoded == 253 { 0x3FEF6E98B4C51465u64 } else
    if encoded == 254 { 0x3FEFB71BBEC33AB1u64 } else
    { 0x3FF0000000000000u64 }
}

} // verus!
