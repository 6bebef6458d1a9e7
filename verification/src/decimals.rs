//! Bit patterns of the decimal constants that the knobs use.
use vstd::prelude::*;

verus! {

/// `-1000000000.0`
pub const DM1000000000: u64 = 0xC1CD_CD65_0000_0000;

/// `-500000000.0`
pub const DM500000000: u64 = 0xC1BD_CD65_0000_0000;

/// `-1000.0`
pub const DM1000: u64 = 0xC08F_4000_0000_0000;

/// `-30.0`
pub const DM30: u64 = 0xC03E_0000_0000_0000;

/// `-20.0`
pub const DM20: u64 = 0xC034_0000_0000_0000;

/// `-10.0`
pub const DM10: u64 = 0xC024_0000_0000_0000;

/// `-4.0`
pub const DM4: u64 = 0xC010_0000_0000_0000;

/// `-2.0`
pub const DM2: u64 = 0xC000_0000_0000_0000;

/// `-1.5`
pub const DM1_5: u64 = 0xBFF8_0000_0000_0000;

/// `-1.0`
pub const DM1: u64 = 0xBFF0_0000_0000_0000;

/// `-0.2`
pub const DM0_2: u64 = 0xBFC9_9999_9999_999A;

/// `-0.18`
pub const DM0_18: u64 = 0xBFC7_0A3D_70A3_D70A;

/// `-0.15`
pub const DM0_15: u64 = 0xBFC3_3333_3333_3333;

/// `0.0`
pub const D0: u64 = 0x0000_0000_0000_0000;

/// `1e-30`
pub const D1EM30: u64 = 0x39B4_484B_FEEB_C2A0;

/// `1e-12`
pub const D1EM12: u64 = 0x3D71_9799_812D_EA11;

/// `1e-09`
pub const D1EM09: u64 = 0x3E11_2E0B_E826_D695;

/// `1e-06`
pub const D1EM06: u64 = 0x3EB0_C6F7_A0B5_ED8D;

/// `0.001`
pub const D0_001: u64 = 0x3F50_624D_D2F1_A9FC;

/// `0.002`
pub const D0_002: u64 = 0x3F60_624D_D2F1_A9FC;

/// `0.006`
pub const D0_006: u64 = 0x3F78_9374_BC6A_7EFA;

/// `0.008`
pub const D0_008: u64 = 0x3F80_624D_D2F1_A9FC;

/// `0.01`
pub const D0_01: u64 = 0x3F84_7AE1_47AE_147B;

/// `0.012`
pub const D0_012: u64 = 0x3F88_9374_BC6A_7EFA;

/// `0.02`
pub const D0_02: u64 = 0x3F94_7AE1_47AE_147B;

/// `0.025`
pub const D0_025: u64 = 0x3F99_9999_9999_999A;

/// `0.03`
pub const D0_03: u64 = 0x3F9E_B851_EB85_1EB8;

/// `0.033`
pub const D0_033: u64 = 0x3FA0_E560_4189_374C;

/// `0.04`
pub const D0_04: u64 = 0x3FA4_7AE1_47AE_147B;

/// `0.05`
pub const D0_05: u64 = 0x3FA9_9999_9999_999A;

/// `0.055`
pub const D0_055: u64 = 0x3FAC_28F5_C28F_5C29;

/// `0.06`
pub const D0_06: u64 = 0x3FAE_B851_EB85_1EB8;

/// `0.08`
pub const D0_08: u64 = 0x3FB4_7AE1_47AE_147B;

/// `0.09`
pub const D0_09: u64 = 0x3FB7_0A3D_70A3_D70A;

/// `0.1`
pub const D0_1: u64 = 0x3FB9_9999_9999_999A;

/// `0.11`
pub const D0_11: u64 = 0x3FBC_28F5_C28F_5C29;

/// `0.12`
pub const D0_12: u64 = 0x3FBE_B851_EB85_1EB8;

/// `0.13`
pub const D0_13: u64 = 0x3FC0_A3D7_0A3D_70A4;

/// `0.14`
pub const D0_14: u64 = 0x3FC1_EB85_1EB8_51EC;

/// `0.15`
pub const D0_15: u64 = 0x3FC3_3333_3333_3333;

/// `0.16`
pub const D0_16: u64 = 0x3FC4_7AE1_47AE_147B;

/// `0.17`
pub const D0_17: u64 = 0x3FC5_C28F_5C28_F5C3;

/// `0.18`
pub const D0_18: u64 = 0x3FC7_0A3D_70A3_D70A;

/// `0.2`
pub const D0_2: u64 = 0x3FC9_9999_9999_999A;

/// `0.22`
pub const D0_22: u64 = 0x3FCC_28F5_C28F_5C29;

/// `0.24`
pub const D0_24: u64 = 0x3FCE_B851_EB85_1EB8;

/// `0.25`
pub const D0_25: u64 = 0x3FD0_0000_0000_0000;

/// `0.26`
pub const D0_26: u64 = 0x3FD0_A3D7_0A3D_70A4;

/// `0.27`
pub const D0_27: u64 = 0x3FD1_47AE_147A_E148;

/// `0.28`
pub const D0_28: u64 = 0x3FD1_EB85_1EB8_51EC;

/// `0.3`
pub const D0_3: u64 = 0x3FD3_3333_3333_3333;

/// `0.32`
pub const D0_32: u64 = 0x3FD4_7AE1_47AE_147B;

/// `0.33`
pub const D0_33: u64 = 0x3FD5_1EB8_51EB_851F;

/// `0.34`
pub const D0_34: u64 = 0x3FD5_C28F_5C28_F5C3;

/// `0.35`
pub const D0_35: u64 = 0x3FD6_6666_6666_6666;

/// `0.36`
pub const D0_36: u64 = 0x3FD7_0A3D_70A3_D70A;

/// `0.38`
pub const D0_38: u64 = 0x3FD8_51EB_851E_B852;

/// `0.4`
pub const D0_4: u64 = 0x3FD9_9999_9999_999A;

/// `0.42`
pub const D0_42: u64 = 0x3FDA_E147_AE14_7AE1;

/// `0.44`
pub const D0_44: u64 = 0x3FDC_28F5_C28F_5C29;

/// `0.45`
pub const D0_45: u64 = 0x3FDC_CCCC_CCCC_CCCD;

/// `0.46`
pub const D0_46: u64 = 0x3FDD_70A3_D70A_3D71;

/// `0.48`
pub const D0_48: u64 = 0x3FDE_B851_EB85_1EB8;

/// `0.5`
pub const D0_5: u64 = 0x3FE0_0000_0000_0000;

/// `0.52`
pub const D0_52: u64 = 0x3FE0_A3D7_0A3D_70A4;

/// `0.55`
pub const D0_55: u64 = 0x3FE1_9999_9999_999A;

/// `0.56`
pub const D0_56: u64 = 0x3FE1_EB85_1EB8_51EC;

/// `0.57`
pub const D0_57: u64 = 0x3FE2_3D70_A3D7_0A3D;

/// `0.58`
pub const D0_58: u64 = 0x3FE2_8F5C_28F5_C28F;

/// `0.6`
pub const D0_6: u64 = 0x3FE3_3333_3333_3333;

/// `0.62`
pub const D0_62: u64 = 0x3FE3_D70A_3D70_A3D7;

/// `0.64`
pub const D0_64: u64 = 0x3FE4_7AE1_47AE_147B;

/// `0.65`
pub const D0_65: u64 = 0x3FE4_CCCC_CCCC_CCCD;

/// `0.66`
pub const D0_66: u64 = 0x3FE5_1EB8_51EB_851F;

/// `0.67`
pub const D0_67: u64 = 0x3FE5_70A3_D70A_3D71;

/// `0.68`
pub const D0_68: u64 = 0x3FE5_C28F_5C28_F5C3;

/// `0.7`
pub const D0_7: u64 = 0x3FE6_6666_6666_6666;

/// `0.72`
pub const D0_72: u64 = 0x3FE7_0A3D_70A3_D70A;

/// `0.75`
pub const D0_75: u64 = 0x3FE8_0000_0000_0000;

/// `0.76`
pub const D0_76: u64 = 0x3FE8_51EB_851E_B852;

/// `0.78`
pub const D0_78: u64 = 0x3FE8_F5C2_8F5C_28F6;

/// `0.8`
pub const D0_8: u64 = 0x3FE9_9999_9999_999A;

/// `0.82`
pub const D0_82: u64 = 0x3FEA_3D70_A3D7_0A3D;

/// `0.85`
pub const D0_85: u64 = 0x3FEB_3333_3333_3333;

/// `0.86`
pub const D0_86: u64 = 0x3FEB_851E_B851_EB85;

/// `0.88`
pub const D0_88: u64 = 0x3FEC_28F5_C28F_5C29;

/// `0.9`
pub const D0_9: u64 = 0x3FEC_CCCC_CCCC_CCCD;

/// `0.92`
pub const D0_92: u64 = 0x3FED_70A3_D70A_3D71;

/// `0.95`
pub const D0_95: u64 = 0x3FEE_6666_6666_6666;

/// `0.96`
pub const D0_96: u64 = 0x3FEE_B851_EB85_1EB8;

/// `0.98`
pub const D0_98: u64 = 0x3FEF_5C28_F5C2_8F5C;

/// `1.0`
pub const D1: u64 = 0x3FF0_0000_0000_0000;

/// `1.04`
pub const D1_04: u64 = 0x3FF0_A3D7_0A3D_70A4;

/// `1.05`
pub const D1_05: u64 = 0x3FF0_CCCC_CCCC_CCCD;

/// `1.1`
pub const D1_1: u64 = 0x3FF1_9999_9999_999A;

/// `1.15`
pub const D1_15: u64 = 0x3FF2_6666_6666_6666;

/// `1.18`
pub const D1_18: u64 = 0x3FF2_E147_AE14_7AE1;

/// `1.2`
pub const D1_2: u64 = 0x3FF3_3333_3333_3333;

/// `1.24`
pub const D1_24: u64 = 0x3FF3_D70A_3D70_A3D7;

/// `1.25`
pub const D1_25: u64 = 0x3FF4_0000_0000_0000;

/// `1.3`
pub const D1_3: u64 = 0x3FF4_CCCC_CCCC_CCCD;

/// `1.32`
pub const D1_32: u64 = 0x3FF5_1EB8_51EB_851F;

/// `1.35`
pub const D1_35: u64 = 0x3FF5_9999_9999_999A;

/// `1.4`
pub const D1_4: u64 = 0x3FF6_6666_6666_6666;

/// `1.45`
pub const D1_45: u64 = 0x3FF7_3333_3333_3333;

/// `1.5`
pub const D1_5: u64 = 0x3FF8_0000_0000_0000;

/// `1.55`
pub const D1_55: u64 = 0x3FF8_CCCC_CCCC_CCCD;

/// `1.6`
pub const D1_6: u64 = 0x3FF9_9999_9999_999A;

/// `1.65`
pub const D1_65: u64 = 0x3FFA_6666_6666_6666;

/// `1.75`
pub const D1_75: u64 = 0x3FFC_0000_0000_0000;

/// `1.8`
pub const D1_8: u64 = 0x3FFC_CCCC_CCCC_CCCD;

/// `1.85`
pub const D1_85: u64 = 0x3FFD_9999_9999_999A;

/// `1.96`
pub const D1_96: u64 = 0x3FFF_5C28_F5C2_8F5C;

/// `2.0`
pub const D2: u64 = 0x4000_0000_0000_0000;

/// `2.1`
pub const D2_1: u64 = 0x4000_CCCC_CCCC_CCCD;

/// `2.2`
pub const D2_2: u64 = 0x4001_9999_9999_999A;

/// `2.25`
pub const D2_25: u64 = 0x4002_0000_0000_0000;

/// `2.4`
pub const D2_4: u64 = 0x4003_3333_3333_3333;

/// `2.5`
pub const D2_5: u64 = 0x4004_0000_0000_0000;

/// `2.75`
pub const D2_75: u64 = 0x4006_0000_0000_0000;

/// `3.0`
pub const D3: u64 = 0x4008_0000_0000_0000;

/// `3.2`
pub const D3_2: u64 = 0x4009_9999_9999_999A;

/// `3.25`
pub const D3_25: u64 = 0x400A_0000_0000_0000;

/// `3.4`
pub const D3_4: u64 = 0x400B_3333_3333_3333;

/// `3.5`
pub const D3_5: u64 = 0x400C_0000_0000_0000;

/// `3.8`
pub const D3_8: u64 = 0x400E_6666_6666_6666;

/// `4.0`
pub const D4: u64 = 0x4010_0000_0000_0000;

/// `4.2`
pub const D4_2: u64 = 0x4010_CCCC_CCCC_CCCD;

/// `4.5`
pub const D4_5: u64 = 0x4012_0000_0000_0000;

/// `4.8`
pub const D4_8: u64 = 0x4013_3333_3333_3333;

/// `5.0`
pub const D5: u64 = 0x4014_0000_0000_0000;

/// `5.5`
pub const D5_5: u64 = 0x4016_0000_0000_0000;

/// `6.0`
pub const D6: u64 = 0x4018_0000_0000_0000;

/// `7.0`
pub const D7: u64 = 0x401C_0000_0000_0000;

/// `7.5`
pub const D7_5: u64 = 0x401E_0000_0000_0000;

/// `8.0`
pub const D8: u64 = 0x4020_0000_0000_0000;

/// `9.0`
pub const D9: u64 = 0x4022_0000_0000_0000;

/// `10.0`
pub const D10: u64 = 0x4024_0000_0000_0000;

/// `11.0`
pub const D11: u64 = 0x4026_0000_0000_0000;

/// `12.0`
pub const D12: u64 = 0x4028_0000_0000_0000;

/// `14.0`
pub const D14: u64 = 0x402C_0000_0000_0000;

/// `15.0`
pub const D15: u64 = 0x402E_0000_0000_0000;

/// `16.0`
pub const D16: u64 = 0x4030_0000_0000_0000;

/// `18.0`
pub const D18: u64 = 0x4032_0000_0000_0000;

/// `20.0`
pub const D20: u64 = 0x4034_0000_0000_0000;

/// `22.0`
pub const D22: u64 = 0x4036_0000_0000_0000;

/// `23.0`
pub const D23: u64 = 0x4037_0000_0000_0000;

/// `24.0`
pub const D24: u64 = 0x4038_0000_0000_0000;

/// `25.0`
pub const D25: u64 = 0x4039_0000_0000_0000;

/// `27.0`
pub const D27: u64 = 0x403B_0000_0000_0000;

/// `28.0`
pub const D28: u64 = 0x403C_0000_0000_0000;

/// `29.0`
pub const D29: u64 = 0x403D_0000_0000_0000;

/// `30.0`
pub const D30: u64 = 0x403E_0000_0000_0000;

/// `32.0`
pub const D32: u64 = 0x4040_0000_0000_0000;

/// `33.3`
pub const D33_3: u64 = 0x4040_A666_6666_6666;

/// `35.0`
pub const D35: u64 = 0x4041_8000_0000_0000;

/// `36.0`
pub const D36: u64 = 0x4042_0000_0000_0000;

/// `40.0`
pub const D40: u64 = 0x4044_0000_0000_0000;

/// `42.0`
pub const D42: u64 = 0x4045_0000_0000_0000;

/// `45.0`
pub const D45: u64 = 0x4046_8000_0000_0000;

/// `48.0`
pub const D48: u64 = 0x4048_0000_0000_0000;

/// `54.0`
pub const D54: u64 = 0x404B_0000_0000_0000;

/// `55.0`
pub const D55: u64 = 0x404B_8000_0000_0000;

/// `56.0`
pub const D56: u64 = 0x404C_0000_0000_0000;

/// `60.0`
pub const D60: u64 = 0x404E_0000_0000_0000;

/// `70.0`
pub const D70: u64 = 0x4051_8000_0000_0000;

/// `72.0`
pub const D72: u64 = 0x4052_0000_0000_0000;

/// `80.0`
pub const D80: u64 = 0x4054_0000_0000_0000;

/// `96.0`
pub const D96: u64 = 0x4058_0000_0000_0000;

/// `100.0`
pub const D100: u64 = 0x4059_0000_0000_0000;

/// `110.0`
pub const D110: u64 = 0x405B_8000_0000_0000;

/// `120.0`
pub const D120: u64 = 0x405E_0000_0000_0000;

/// `140.0`
pub const D140: u64 = 0x4061_8000_0000_0000;

/// `160.0`
pub const D160: u64 = 0x4064_0000_0000_0000;

/// `200.0`
pub const D200: u64 = 0x4069_0000_0000_0000;

/// `220.0`
pub const D220: u64 = 0x406B_8000_0000_0000;

/// `240.0`
pub const D240: u64 = 0x406E_0000_0000_0000;

/// `250.0`
pub const D250: u64 = 0x406F_4000_0000_0000;

/// `400.0`
pub const D400: u64 = 0x4079_0000_0000_0000;

/// `500.0`
pub const D500: u64 = 0x407F_4000_0000_0000;

/// `1000.0`
pub const D1000: u64 = 0x408F_4000_0000_0000;

/// `1500.0`
pub const D1500: u64 = 0x4097_7000_0000_0000;

/// `30000.0`
pub const D30000: u64 = 0x40DD_4C00_0000_0000;

/// The largest finite number.
pub const DECIMAL_MAX: u64 = 0x7FEF_FFFF_FFFF_FFFF;

} // verus!
