//! The ordinals of the ROM function table.

#![allow(non_camel_case_types, clippy::upper_case_acronyms)]

use vstd::prelude::*;

verus! {

/// Physical address of the first slot of the ROM function table.
pub const ROM_APITABLE_ADDR: usize = 0x2101_8800;

/// Size of the table in bytes.
pub const ROMAPI_INDEX_SECT_SIZE: usize = 0x800;

/// The last ordinal that the table has room for.
pub const ROMAPI_INDEX_MAX: usize = ROMAPI_INDEX_SECT_SIZE / 4 - 1;

/// The ordinal of the first slot that holds a routine.
pub const ROM_API_INDEX_FUNC_START: usize = 4;

/// The ordinal of the last slot that holds a routine. Slots beyond it are
/// reserved.
pub const ROM_API_INDEX_FUNC_LAST: usize = 173;

/// The slots of the ROM function table, by name.
#[derive(Clone, Copy, Debug, PartialEq, Eq)]
pub enum ROM_API_INDEX_e {
    ROM_API_INDEX_REV,
    ROM_API_INDEX_AON_Power_On_MBG,
    ROM_API_INDEX_AON_Power_Off_MBG,
    ROM_API_INDEX_AON_Power_On_XTAL,
    ROM_API_INDEX_AON_Set_Xtal_CapCode,
    ROM_API_INDEX_AON_Power_Off_XTAL,
    ROM_API_INDEX_ASM_Delay_Us,
    ROM_API_INDEX_BL702_Delay_US,
    ROM_API_INDEX_BL702_Delay_MS,
    ROM_API_INDEX_BL702_MemCpy,
    ROM_API_INDEX_BL702_MemCpy4,
    ROM_API_INDEX_BL702_MemCpy_Fast,
    ROM_API_INDEX_ARCH_MemCpy_Fast,
    ROM_API_INDEX_BL702_MemSet,
    ROM_API_INDEX_BL702_MemSet4,
    ROM_API_INDEX_BL702_MemCmp,
    ROM_API_INDEX_BFLB_Soft_CRC32,
    ROM_API_INDEX_GLB_Get_Root_CLK_Sel,
    ROM_API_INDEX_GLB_Set_System_CLK_Div,
    ROM_API_INDEX_GLB_Get_BCLK_Div,
    ROM_API_INDEX_GLB_Get_HCLK_Div,
    ROM_API_INDEX_Update_SystemCoreClockWith_XTAL,
    ROM_API_INDEX_GLB_Set_System_CLK,
    ROM_API_INDEX_System_Core_Clock_Update_From_RC32M,
    ROM_API_INDEX_GLB_Set_SF_CLK,
    ROM_API_INDEX_GLB_Power_Off_DLL,
    ROM_API_INDEX_GLB_Power_On_DLL,
    ROM_API_INDEX_GLB_Enable_DLL_All_Clks,
    ROM_API_INDEX_GLB_Enable_DLL_Clk,
    ROM_API_INDEX_GLB_Disable_DLL_All_Clks,
    ROM_API_INDEX_GLB_Disable_DLL_Clk,
    ROM_API_INDEX_GLB_SW_System_Reset,
    ROM_API_INDEX_GLB_SW_CPU_Reset,
    ROM_API_INDEX_GLB_SW_POR_Reset,
    ROM_API_INDEX_GLB_Select_Internal_Flash,
    ROM_API_INDEX_GLB_Swap_Flash_Pin,
    ROM_API_INDEX_GLB_Swap_Flash_CS_IO2_Pin,
    ROM_API_INDEX_GLB_Swap_Flash_IO0_IO3_Pin,
    ROM_API_INDEX_GLB_Select_Internal_PSram,
    ROM_API_INDEX_GLB_GPIO_Init,
    ROM_API_INDEX_GLB_GPIO_OUTPUT_Enable,
    ROM_API_INDEX_GLB_GPIO_OUTPUT_Disable,
    ROM_API_INDEX_GLB_GPIO_Set_HZ,
    ROM_API_INDEX_GLB_Deswap_Flash_Pin,
    ROM_API_INDEX_GLB_Select_External_Flash,
    ROM_API_INDEX_GLB_GPIO_Get_Fun,
    ROM_API_INDEX_EF_Ctrl_Busy,
    ROM_API_INDEX_EF_Ctrl_Sw_AHB_Clk_0,
    ROM_API_INDEX_EF_Ctrl_Load_Efuse_R0,
    ROM_API_INDEX_EF_Ctrl_Clear,
    ROM_API_INDEX_EF_Ctrl_Get_Trim_Parity,
    ROM_API_INDEX_EF_Ctrl_Read_RC32K_Trim,
    ROM_API_INDEX_EF_Ctrl_Read_RC32M_Trim,
    ROM_API_INDEX_PDS_Trim_RC32M,
    ROM_API_INDEX_PDS_Select_RC32M_As_PLL_Ref,
    ROM_API_INDEX_PDS_Select_XTAL_As_PLL_Ref,
    ROM_API_INDEX_PDS_Power_On_PLL,
    ROM_API_INDEX_PDS_Enable_PLL_All_Clks,
    ROM_API_INDEX_PDS_Disable_PLL_All_Clks,
    ROM_API_INDEX_PDS_Enable_PLL_Clk,
    ROM_API_INDEX_PDS_Disable_PLL_Clk,
    ROM_API_INDEX_PDS_Power_Off_PLL,
    ROM_API_INDEX_PDS_Reset,
    ROM_API_INDEX_PDS_Enable,
    ROM_API_INDEX_PDS_Auto_Time_Config,
    ROM_API_INDEX_PDS_Auto_Enable,
    ROM_API_INDEX_PDS_Manual_Force_Turn_Off,
    ROM_API_INDEX_PDS_Manual_Force_Turn_On,
    ROM_API_INDEX_HBN_Enable,
    ROM_API_INDEX_HBN_Reset,
    ROM_API_INDEX_HBN_GPIO_Dbg_Pull_Cfg,
    ROM_API_INDEX_HBN_Trim_RC32K,
    ROM_API_INDEX_HBN_Set_ROOT_CLK_Sel,
    ROM_API_INDEX_XIP_SFlash_State_Save,
    ROM_API_INDEX_XIP_SFlash_State_Restore,
    ROM_API_INDEX_XIP_SFlash_Erase_Need_Lock,
    ROM_API_INDEX_XIP_SFlash_Write_Need_Lock,
    ROM_API_INDEX_XIP_SFlash_Read_Need_Lock,
    ROM_API_INDEX_XIP_SFlash_GetJedecId_Need_Lock,
    ROM_API_INDEX_XIP_SFlash_GetDeviceId_Need_Lock,
    ROM_API_INDEX_XIP_SFlash_GetUniqueId_Need_Lock,
    ROM_API_INDEX_XIP_SFlash_Read_Via_Cache_Need_Lock,
    ROM_API_INDEX_XIP_SFlash_Read_With_Lock,
    ROM_API_INDEX_XIP_SFlash_Write_With_Lock,
    ROM_API_INDEX_XIP_SFlash_Erase_With_Lock,
    ROM_API_INDEX_SFlash_Init,
    ROM_API_INDEX_SFlash_SetSPIMode,
    ROM_API_INDEX_SFlash_Read_Reg,
    ROM_API_INDEX_SFlash_Write_Reg,
    ROM_API_INDEX_SFlash_Read_Reg_With_Cmd,
    ROM_API_INDEX_SFlash_Write_Reg_With_Cmd,
    ROM_API_INDEX_SFlash_Busy,
    ROM_API_INDEX_SFlash_Write_Enable,
    ROM_API_INDEX_SFlash_Qspi_Enable,
    ROM_API_INDEX_SFlash_Volatile_Reg_Write_Enable,
    ROM_API_INDEX_SFlash_Chip_Erase,
    ROM_API_INDEX_SFlash_Sector_Erase,
    ROM_API_INDEX_SFlash_Blk32_Erase,
    ROM_API_INDEX_SFlash_Blk64_Erase,
    ROM_API_INDEX_SFlash_Erase,
    ROM_API_INDEX_SFlash_Program,
    ROM_API_INDEX_SFlash_GetUniqueId,
    ROM_API_INDEX_SFlash_GetJedecId,
    ROM_API_INDEX_SFlash_GetDeviceId,
    ROM_API_INDEX_SFlash_Powerdown,
    ROM_API_INDEX_SFlash_Releae_Powerdown,
    ROM_API_INDEX_SFlash_Restore_From_Powerdown,
    ROM_API_INDEX_SFlash_SetBurstWrap,
    ROM_API_INDEX_SFlash_DisableBurstWrap,
    ROM_API_INDEX_SFlash_Software_Reset,
    ROM_API_INDEX_SFlash_Reset_Continue_Read,
    ROM_API_INDEX_SFlash_Set_IDbus_Cfg,
    ROM_API_INDEX_SFlash_IDbus_Read_Enable,
    ROM_API_INDEX_SFlash_Cache_Read_Enable,
    ROM_API_INDEX_SFlash_Cache_Read_Disable,
    ROM_API_INDEX_SFlash_Read,
    ROM_API_INDEX_L1C_Cache_Enable_Set,
    ROM_API_INDEX_L1C_Cache_Write_Set,
    ROM_API_INDEX_L1C_Cache_Flush,
    ROM_API_INDEX_L1C_Cache_Hit_Count_Get,
    ROM_API_INDEX_L1C_Cache_Miss_Count_Get,
    ROM_API_INDEX_L1C_Cache_Read_Disable,
    ROM_API_INDEX_L1C_Set_Wrap,
    ROM_API_INDEX_L1C_Set_Way_Disable,
    ROM_API_INDEX_L1C_IROM_2T_Access_Set,
    ROM_API_INDEX_SF_Ctrl_Enable,
    ROM_API_INDEX_SF_Ctrl_Psram_Init,
    ROM_API_INDEX_SF_Ctrl_Get_Clock_Delay,
    ROM_API_INDEX_SF_Ctrl_Set_Clock_Delay,
    ROM_API_INDEX_SF_Ctrl_Cmds_Set,
    ROM_API_INDEX_SF_Ctrl_Set_Owner,
    ROM_API_INDEX_SF_Ctrl_Disable,
    ROM_API_INDEX_SF_Ctrl_Select_Pad,
    ROM_API_INDEX_SF_Ctrl_Select_Bank,
    ROM_API_INDEX_SF_Ctrl_AES_Enable_BE,
    ROM_API_INDEX_SF_Ctrl_AES_Enable_LE,
    ROM_API_INDEX_SF_Ctrl_AES_Set_Region,
    ROM_API_INDEX_SF_Ctrl_AES_Set_Key,
    ROM_API_INDEX_SF_Ctrl_AES_Set_Key_BE,
    ROM_API_INDEX_SF_Ctrl_AES_Set_IV,
    ROM_API_INDEX_SF_Ctrl_AES_Set_IV_BE,
    ROM_API_INDEX_SF_Ctrl_AES_Enable,
    ROM_API_INDEX_SF_Ctrl_AES_Disable,
    ROM_API_INDEX_SF_Ctrl_Is_AES_Enable,
    ROM_API_INDEX_SF_Ctrl_Set_Flash_Image_Offset,
    ROM_API_INDEX_SF_Ctrl_Get_Flash_Image_Offset,
    ROM_API_INDEX_SF_Ctrl_Select_Clock,
    ROM_API_INDEX_SF_Ctrl_SendCmd,
    ROM_API_INDEX_SF_Ctrl_Flash_Read_Icache_Set,
    ROM_API_INDEX_SF_Ctrl_Psram_Write_Icache_Set,
    ROM_API_INDEX_SF_Ctrl_Psram_Read_Icache_Set,
    ROM_API_INDEX_SF_Ctrl_GetBusyState,
    ROM_API_INDEX_SF_Cfg_Deinit_Ext_Flash_Gpio,
    ROM_API_INDEX_SF_Cfg_Init_Ext_Flash_Gpio,
    ROM_API_INDEX_SF_Cfg_Get_Flash_Cfg_Need_Lock,
    ROM_API_INDEX_SF_Cfg_Init_Flash_Gpio,
    ROM_API_INDEX_SF_Cfg_Flash_Identify,
    ROM_API_INDEX_Psram_Init,
    ROM_API_INDEX_Psram_ReadReg,
    ROM_API_INDEX_Psram_WriteReg,
    ROM_API_INDEX_Psram_SetDriveStrength,
    ROM_API_INDEX_Psram_SetBurstWrap,
    ROM_API_INDEX_Psram_ReadId,
    ROM_API_INDEX_Psram_EnterQuadMode,
    ROM_API_INDEX_Psram_ExitQuadMode,
    ROM_API_INDEX_Psram_ToggleBurstLength,
    ROM_API_INDEX_Psram_SoftwareReset,
    ROM_API_INDEX_Psram_Set_IDbus_Cfg,
    ROM_API_INDEX_Psram_Cache_Write_Set,
    ROM_API_INDEX_Psram_Write,
    ROM_API_INDEX_Psram_Read,
    ROM_API_INDEX_FUNC_INVALID_START,
    ROM_API_INDEX_FUNC_LAST_ENTRY,
}

impl ROM_API_INDEX_e {
    /// The position of the slot in the table.
    pub open spec fn ordinal(self) -> usize {
        match self {
            ROM_API_INDEX_e::ROM_API_INDEX_REV => 0,
            ROM_API_INDEX_e::ROM_API_INDEX_AON_Power_On_MBG => 4,
            ROM_API_INDEX_e::ROM_API_INDEX_AON_Power_Off_MBG => 5,
            ROM_API_INDEX_e::ROM_API_INDEX_AON_Power_On_XTAL => 6,
            ROM_API_INDEX_e::ROM_API_INDEX_AON_Set_Xtal_CapCode => 7,
            ROM_API_INDEX_e::ROM_API_INDEX_AON_Power_Off_XTAL => 8,
            ROM_API_INDEX_e::ROM_API_INDEX_ASM_Delay_Us => 9,
            ROM_API_INDEX_e::ROM_API_INDEX_BL702_Delay_US => 10,
            ROM_API_INDEX_e::ROM_API_INDEX_BL702_Delay_MS => 11,
            ROM_API_INDEX_e::ROM_API_INDEX_BL702_MemCpy => 12,
            ROM_API_INDEX_e::ROM_API_INDEX_BL702_MemCpy4 => 13,
            ROM_API_INDEX_e::ROM_API_INDEX_BL702_MemCpy_Fast => 14,
            ROM_API_INDEX_e::ROM_API_INDEX_ARCH_MemCpy_Fast => 15,
            ROM_API_INDEX_e::ROM_API_INDEX_BL702_MemSet => 16,
            ROM_API_INDEX_e::ROM_API_INDEX_BL702_MemSet4 => 17,
            ROM_API_INDEX_e::ROM_API_INDEX_BL702_MemCmp => 18,
            ROM_API_INDEX_e::ROM_API_INDEX_BFLB_Soft_CRC32 => 19,
            ROM_API_INDEX_e::ROM_API_INDEX_GLB_Get_Root_CLK_Sel => 20,
            ROM_API_INDEX_e::ROM_API_INDEX_GLB_Set_System_CLK_Div => 21,
            ROM_API_INDEX_e::ROM_API_INDEX_GLB_Get_BCLK_Div => 22,
            ROM_API_INDEX_e::ROM_API_INDEX_GLB_Get_HCLK_Div => 23,
            ROM_API_INDEX_e::ROM_API_INDEX_Update_SystemCoreClockWith_XTAL => 24,
            ROM_API_INDEX_e::ROM_API_INDEX_GLB_Set_System_CLK => 25,
            ROM_API_INDEX_e::ROM_API_INDEX_System_Core_Clock_Update_From_RC32M => 26,
            ROM_API_INDEX_e::ROM_API_INDEX_GLB_Set_SF_CLK => 27,
            ROM_API_INDEX_e::ROM_API_INDEX_GLB_Power_Off_DLL => 28,
            ROM_API_INDEX_e::ROM_API_INDEX_GLB_Power_On_DLL => 29,
            ROM_API_INDEX_e::ROM_API_INDEX_GLB_Enable_DLL_All_Clks => 30,
            ROM_API_INDEX_e::ROM_API_INDEX_GLB_Enable_DLL_Clk => 31,
            ROM_API_INDEX_e::ROM_API_INDEX_GLB_Disable_DLL_All_Clks => 32,
            ROM_API_INDEX_e::ROM_API_INDEX_GLB_Disable_DLL_Clk => 33,
            ROM_API_INDEX_e::ROM_API_INDEX_GLB_SW_System_Reset => 34,
            ROM_API_INDEX_e::ROM_API_INDEX_GLB_SW_CPU_Reset => 35,
            ROM_API_INDEX_e::ROM_API_INDEX_GLB_SW_POR_Reset => 36,
            ROM_API_INDEX_e::ROM_API_INDEX_GLB_Select_Internal_Flash => 37,
            ROM_API_INDEX_e::ROM_API_INDEX_GLB_Swap_Flash_Pin => 38,
            ROM_API_INDEX_e::ROM_API_INDEX_GLB_Swap_Flash_CS_IO2_Pin => 39,
            ROM_API_INDEX_e::ROM_API_INDEX_GLB_Swap_Flash_IO0_IO3_Pin => 40,
            ROM_API_INDEX_e::ROM_API_INDEX_GLB_Select_Internal_PSram => 41,
            ROM_API_INDEX_e::ROM_API_INDEX_GLB_GPIO_Init => 42,
            ROM_API_INDEX_e::ROM_API_INDEX_GLB_GPIO_OUTPUT_Enable => 43,
            ROM_API_INDEX_e::ROM_API_INDEX_GLB_GPIO_OUTPUT_Disable => 44,
            ROM_API_INDEX_e::ROM_API_INDEX_GLB_GPIO_Set_HZ => 45,
            ROM_API_INDEX_e::ROM_API_INDEX_GLB_Deswap_Flash_Pin => 46,
            ROM_API_INDEX_e::ROM_API_INDEX_GLB_Select_External_Flash => 47,
            ROM_API_INDEX_e::ROM_API_INDEX_GLB_GPIO_Get_Fun => 48,
            ROM_API_INDEX_e::ROM_API_INDEX_EF_Ctrl_Busy => 49,
            ROM_API_INDEX_e::ROM_API_INDEX_EF_Ctrl_Sw_AHB_Clk_0 => 50,
            ROM_API_INDEX_e::ROM_API_INDEX_EF_Ctrl_Load_Efuse_R0 => 51,
            ROM_API_INDEX_e::ROM_API_INDEX_EF_Ctrl_Clear => 52,
            ROM_API_INDEX_e::ROM_API_INDEX_EF_Ctrl_Get_Trim_Parity => 53,
            ROM_API_INDEX_e::ROM_API_INDEX_EF_Ctrl_Read_RC32K_Trim => 54,
            ROM_API_INDEX_e::ROM_API_INDEX_EF_Ctrl_Read_RC32M_Trim => 55,
            ROM_API_INDEX_e::ROM_API_INDEX_PDS_Trim_RC32M => 56,
            ROM_API_INDEX_e::ROM_API_INDEX_PDS_Select_RC32M_As_PLL_Ref => 57,
            ROM_API_INDEX_e::ROM_API_INDEX_PDS_Select_XTAL_As_PLL_Ref => 58,
            ROM_API_INDEX_e::ROM_API_INDEX_PDS_Power_On_PLL => 59,
            ROM_API_INDEX_e::ROM_API_INDEX_PDS_Enable_PLL_All_Clks => 60,
            ROM_API_INDEX_e::ROM_API_INDEX_PDS_Disable_PLL_All_Clks => 61,
            ROM_API_INDEX_e::ROM_API_INDEX_PDS_Enable_PLL_Clk => 62,
            ROM_API_INDEX_e::ROM_API_INDEX_PDS_Disable_PLL_Clk => 63,
            ROM_API_INDEX_e::ROM_API_INDEX_PDS_Power_Off_PLL => 64,
            ROM_API_INDEX_e::ROM_API_INDEX_PDS_Reset => 65,
            ROM_API_INDEX_e::ROM_API_INDEX_PDS_Enable => 66,
            ROM_API_INDEX_e::ROM_API_INDEX_PDS_Auto_Time_Config => 67,
            ROM_API_INDEX_e::ROM_API_INDEX_PDS_Auto_Enable => 68,
            ROM_API_INDEX_e::ROM_API_INDEX_PDS_Manual_Force_Turn_Off => 69,
            ROM_API_INDEX_e::ROM_API_INDEX_PDS_Manual_Force_Turn_On => 70,
            ROM_API_INDEX_e::ROM_API_INDEX_HBN_Enable => 71,
            ROM_API_INDEX_e::ROM_API_INDEX_HBN_Reset => 72,
            ROM_API_INDEX_e::ROM_API_INDEX_HBN_GPIO_Dbg_Pull_Cfg => 73,
            ROM_API_INDEX_e::ROM_API_INDEX_HBN_Trim_RC32K => 74,
            ROM_API_INDEX_e::ROM_API_INDEX_HBN_Set_ROOT_CLK_Sel => 75,
            ROM_API_INDEX_e::ROM_API_INDEX_XIP_SFlash_State_Save => 76,
            ROM_API_INDEX_e::ROM_API_INDEX_XIP_SFlash_State_Restore => 77,
            ROM_API_INDEX_e::ROM_API_INDEX_XIP_SFlash_Erase_Need_Lock => 78,
            ROM_API_INDEX_e::ROM_API_INDEX_XIP_SFlash_Write_Need_Lock => 79,
            ROM_API_INDEX_e::ROM_API_INDEX_XIP_SFlash_Read_Need_Lock => 80,
            ROM_API_INDEX_e::ROM_API_INDEX_XIP_SFlash_GetJedecId_Need_Lock => 81,
            ROM_API_INDEX_e::ROM_API_INDEX_XIP_SFlash_GetDeviceId_Need_Lock => 82,
            ROM_API_INDEX_e::ROM_API_INDEX_XIP_SFlash_GetUniqueId_Need_Lock => 83,
            ROM_API_INDEX_e::ROM_API_INDEX_XIP_SFlash_Read_Via_Cache_Need_Lock => 84,
            ROM_API_INDEX_e::ROM_API_INDEX_XIP_SFlash_Read_With_Lock => 85,
            ROM_API_INDEX_e::ROM_API_INDEX_XIP_SFlash_Write_With_Lock => 86,
            ROM_API_INDEX_e::ROM_API_INDEX_XIP_SFlash_Erase_With_Lock => 87,
            ROM_API_INDEX_e::ROM_API_INDEX_SFlash_Init => 88,
            ROM_API_INDEX_e::ROM_API_INDEX_SFlash_SetSPIMode => 89,
            ROM_API_INDEX_e::ROM_API_INDEX_SFlash_Read_Reg => 90,
            ROM_API_INDEX_e::ROM_API_INDEX_SFlash_Write_Reg => 91,
            ROM_API_INDEX_e::ROM_API_INDEX_SFlash_Read_Reg_With_Cmd => 92,
            ROM_API_INDEX_e::ROM_API_INDEX_SFlash_Write_Reg_With_Cmd => 93,
            ROM_API_INDEX_e::ROM_API_INDEX_SFlash_Busy => 94,
            ROM_API_INDEX_e::ROM_API_INDEX_SFlash_Write_Enable => 95,
            ROM_API_INDEX_e::ROM_API_INDEX_SFlash_Qspi_Enable => 96,
            ROM_API_INDEX_e::ROM_API_INDEX_SFlash_Volatile_Reg_Write_Enable => 97,
            ROM_API_INDEX_e::ROM_API_INDEX_SFlash_Chip_Erase => 98,
            ROM_API_INDEX_e::ROM_API_INDEX_SFlash_Sector_Erase => 99,
            ROM_API_INDEX_e::ROM_API_INDEX_SFlash_Blk32_Erase => 100,
            ROM_API_INDEX_e::ROM_API_INDEX_SFlash_Blk64_Erase => 101,
            ROM_API_INDEX_e::ROM_API_INDEX_SFlash_Erase => 102,
            ROM_API_INDEX_e::ROM_API_INDEX_SFlash_Program => 103,
            ROM_API_INDEX_e::ROM_API_INDEX_SFlash_GetUniqueId => 104,
            ROM_API_INDEX_e::ROM_API_INDEX_SFlash_GetJedecId => 105,
            ROM_API_INDEX_e::ROM_API_INDEX_SFlash_GetDeviceId => 106,
            ROM_API_INDEX_e::ROM_API_INDEX_SFlash_Powerdown => 107,
            ROM_API_INDEX_e::ROM_API_INDEX_SFlash_Releae_Powerdown => 108,
            ROM_API_INDEX_e::ROM_API_INDEX_SFlash_Restore_From_Powerdown => 109,
            ROM_API_INDEX_e::ROM_API_INDEX_SFlash_SetBurstWrap => 110,
            ROM_API_INDEX_e::ROM_API_INDEX_SFlash_DisableBurstWrap => 111,
            ROM_API_INDEX_e::ROM_API_INDEX_SFlash_Software_Reset => 112,
            ROM_API_INDEX_e::ROM_API_INDEX_SFlash_Reset_Continue_Read => 113,
            ROM_API_INDEX_e::ROM_API_INDEX_SFlash_Set_IDbus_Cfg => 114,
            ROM_API_INDEX_e::ROM_API_INDEX_SFlash_IDbus_Read_Enable => 115,
            ROM_API_INDEX_e::ROM_API_INDEX_SFlash_Cache_Read_Enable => 116,
            ROM_API_INDEX_e::ROM_API_INDEX_SFlash_Cache_Read_Disable => 117,
            ROM_API_INDEX_e::ROM_API_INDEX_SFlash_Read => 118,
            ROM_API_INDEX_e::ROM_API_INDEX_L1C_Cache_Enable_Set => 119,
            ROM_API_INDEX_e::ROM_API_INDEX_L1C_Cache_Write_Set => 120,
            ROM_API_INDEX_e::ROM_API_INDEX_L1C_Cache_Flush => 121,
            ROM_API_INDEX_e::ROM_API_INDEX_L1C_Cache_Hit_Count_Get => 122,
            ROM_API_INDEX_e::ROM_API_INDEX_L1C_Cache_Miss_Count_Get => 123,
            ROM_API_INDEX_e::ROM_API_INDEX_L1C_Cache_Read_Disable => 124,
            ROM_API_INDEX_e::ROM_API_INDEX_L1C_Set_Wrap => 125,
            ROM_API_INDEX_e::ROM_API_INDEX_L1C_Set_Way_Disable => 126,
            ROM_API_INDEX_e::ROM_API_INDEX_L1C_IROM_2T_Access_Set => 127,
            ROM_API_INDEX_e::ROM_API_INDEX_SF_Ctrl_Enable => 128,
            ROM_API_INDEX_e::ROM_API_INDEX_SF_Ctrl_Psram_Init => 129,
            ROM_API_INDEX_e::ROM_API_INDEX_SF_Ctrl_Get_Clock_Delay => 130,
            ROM_API_INDEX_e::ROM_API_INDEX_SF_Ctrl_Set_Clock_Delay => 131,
            ROM_API_INDEX_e::ROM_API_INDEX_SF_Ctrl_Cmds_Set => 132,
            ROM_API_INDEX_e::ROM_API_INDEX_SF_Ctrl_Set_Owner => 133,
            ROM_API_INDEX_e::ROM_API_INDEX_SF_Ctrl_Disable => 134,
            ROM_API_INDEX_e::ROM_API_INDEX_SF_Ctrl_Select_Pad => 135,
            ROM_API_INDEX_e::ROM_API_INDEX_SF_Ctrl_Select_Bank => 136,
            ROM_API_INDEX_e::ROM_API_INDEX_SF_Ctrl_AES_Enable_BE => 137,
            ROM_API_INDEX_e::ROM_API_INDEX_SF_Ctrl_AES_Enable_LE => 138,
            ROM_API_INDEX_e::ROM_API_INDEX_SF_Ctrl_AES_Set_Region => 139,
            ROM_API_INDEX_e::ROM_API_INDEX_SF_Ctrl_AES_Set_Key => 140,
            ROM_API_INDEX_e::ROM_API_INDEX_SF_Ctrl_AES_Set_Key_BE => 141,
            ROM_API_INDEX_e::ROM_API_INDEX_SF_Ctrl_AES_Set_IV => 142,
            ROM_API_INDEX_e::ROM_API_INDEX_SF_Ctrl_AES_Set_IV_BE => 143,
            ROM_API_INDEX_e::ROM_API_INDEX_SF_Ctrl_AES_Enable => 144,
            ROM_API_INDEX_e::ROM_API_INDEX_SF_Ctrl_AES_Disable => 145,
            ROM_API_INDEX_e::ROM_API_INDEX_SF_Ctrl_Is_AES_Enable => 146,
            ROM_API_INDEX_e::ROM_API_INDEX_SF_Ctrl_Set_Flash_Image_Offset => 147,
            ROM_API_INDEX_e::ROM_API_INDEX_SF_Ctrl_Get_Flash_Image_Offset => 148,
            ROM_API_INDEX_e::ROM_API_INDEX_SF_Ctrl_Select_Clock => 149,
            ROM_API_INDEX_e::ROM_API_INDEX_SF_Ctrl_SendCmd => 150,
            ROM_API_INDEX_e::ROM_API_INDEX_SF_Ctrl_Flash_Read_Icache_Set => 151,
            ROM_API_INDEX_e::ROM_API_INDEX_SF_Ctrl_Psram_Write_Icache_Set => 152,
            ROM_API_INDEX_e::ROM_API_INDEX_SF_Ctrl_Psram_Read_Icache_Set => 153,
            ROM_API_INDEX_e::ROM_API_INDEX_SF_Ctrl_GetBusyState => 154,
            ROM_API_INDEX_e::ROM_API_INDEX_SF_Cfg_Deinit_Ext_Flash_Gpio => 155,
            ROM_API_INDEX_e::ROM_API_INDEX_SF_Cfg_Init_Ext_Flash_Gpio => 156,
            ROM_API_INDEX_e::ROM_API_INDEX_SF_Cfg_Get_Flash_Cfg_Need_Lock => 157,
            ROM_API_INDEX_e::ROM_API_INDEX_SF_Cfg_Init_Flash_Gpio => 158,
            ROM_API_INDEX_e::ROM_API_INDEX_SF_Cfg_Flash_Identify => 159,
            ROM_API_INDEX_e::ROM_API_INDEX_Psram_Init => 160,
            ROM_API_INDEX_e::ROM_API_INDEX_Psram_ReadReg => 161,
            ROM_API_INDEX_e::ROM_API_INDEX_Psram_WriteReg => 162,
            ROM_API_INDEX_e::ROM_API_INDEX_Psram_SetDriveStrength => 163,
            ROM_API_INDEX_e::ROM_API_INDEX_Psram_SetBurstWrap => 164,
            ROM_API_INDEX_e::ROM_API_INDEX_Psram_ReadId => 165,
            ROM_API_INDEX_e::ROM_API_INDEX_Psram_EnterQuadMode => 166,
            ROM_API_INDEX_e::ROM_API_INDEX_Psram_ExitQuadMode => 167,
            ROM_API_INDEX_e::ROM_API_INDEX_Psram_ToggleBurstLength => 168,
            ROM_API_INDEX_e::ROM_API_INDEX_Psram_SoftwareReset => 169,
            ROM_API_INDEX_e::ROM_API_INDEX_Psram_Set_IDbus_Cfg => 170,
            ROM_API_INDEX_e::ROM_API_INDEX_Psram_Cache_Write_Set => 171,
            ROM_API_INDEX_e::ROM_API_INDEX_Psram_Write => 172,
            ROM_API_INDEX_e::ROM_API_INDEX_Psram_Read => 173,
            ROM_API_INDEX_e::ROM_API_INDEX_FUNC_INVALID_START => 174,
            ROM_API_INDEX_e::ROM_API_INDEX_FUNC_LAST_ENTRY => 511,
        }
    }

    /// Computes [`Self::ordinal`].
    pub fn index(self) -> (i: usize)
        ensures
            i == self.ordinal(),
            i <= ROMAPI_INDEX_MAX,
    {
        match self {
            ROM_API_INDEX_e::ROM_API_INDEX_REV => 0,
            ROM_API_INDEX_e::ROM_API_INDEX_AON_Power_On_MBG => 4,
            ROM_API_INDEX_e::ROM_API_INDEX_AON_Power_Off_MBG => 5,
            ROM_API_INDEX_e::ROM_API_INDEX_AON_Power_On_XTAL => 6,
            ROM_API_INDEX_e::ROM_API_INDEX_AON_Set_Xtal_CapCode => 7,
            ROM_API_INDEX_e::ROM_API_INDEX_AON_Power_Off_XTAL => 8,
            ROM_API_INDEX_e::ROM_API_INDEX_ASM_Delay_Us => 9,
            ROM_API_INDEX_e::ROM_API_INDEX_BL702_Delay_US => 10,
            ROM_API_INDEX_e::ROM_API_INDEX_BL702_Delay_MS => 11,
            ROM_API_INDEX_e::ROM_API_INDEX_BL702_MemCpy => 12,
            ROM_API_INDEX_e::ROM_API_INDEX_BL702_MemCpy4 => 13,
            ROM_API_INDEX_e::ROM_API_INDEX_BL702_MemCpy_Fast => 14,
            ROM_API_INDEX_e::ROM_API_INDEX_ARCH_MemCpy_Fast => 15,
            ROM_API_INDEX_e::ROM_API_INDEX_BL702_MemSet => 16,
            ROM_API_INDEX_e::ROM_API_INDEX_BL702_MemSet4 => 17,
            ROM_API_INDEX_e::ROM_API_INDEX_BL702_MemCmp => 18,
            ROM_API_INDEX_e::ROM_API_INDEX_BFLB_Soft_CRC32 => 19,
            ROM_API_INDEX_e::ROM_API_INDEX_GLB_Get_Root_CLK_Sel => 20,
            ROM_API_INDEX_e::ROM_API_INDEX_GLB_Set_System_CLK_Div => 21,
            ROM_API_INDEX_e::ROM_API_INDEX_GLB_Get_BCLK_Div => 22,
            ROM_API_INDEX_e::ROM_API_INDEX_GLB_Get_HCLK_Div => 23,
            ROM_API_INDEX_e::ROM_API_INDEX_Update_SystemCoreClockWith_XTAL => 24,
            ROM_API_INDEX_e::ROM_API_INDEX_GLB_Set_System_CLK => 25,
            ROM_API_INDEX_e::ROM_API_INDEX_System_Core_Clock_Update_From_RC32M => 26,
            ROM_API_INDEX_e::ROM_API_INDEX_GLB_Set_SF_CLK => 27,
            ROM_API_INDEX_e::ROM_API_INDEX_GLB_Power_Off_DLL => 28,
            ROM_API_INDEX_e::ROM_API_INDEX_GLB_Power_On_DLL => 29,
            ROM_API_INDEX_e::ROM_API_INDEX_GLB_Enable_DLL_All_Clks => 30,
            ROM_API_INDEX_e::ROM_API_INDEX_GLB_Enable_DLL_Clk => 31,
            ROM_API_INDEX_e::ROM_API_INDEX_GLB_Disable_DLL_All_Clks => 32,
            ROM_API_INDEX_e::ROM_API_INDEX_GLB_Disable_DLL_Clk => 33,
            ROM_API_INDEX_e::ROM_API_INDEX_GLB_SW_System_Reset => 34,
            ROM_API_INDEX_e::ROM_API_INDEX_GLB_SW_CPU_Reset => 35,
            ROM_API_INDEX_e::ROM_API_INDEX_GLB_SW_POR_Reset => 36,
            ROM_API_INDEX_e::ROM_API_INDEX_GLB_Select_Internal_Flash => 37,
            ROM_API_INDEX_e::ROM_API_INDEX_GLB_Swap_Flash_Pin => 38,
            ROM_API_INDEX_e::ROM_API_INDEX_GLB_Swap_Flash_CS_IO2_Pin => 39,
            ROM_API_INDEX_e::ROM_API_INDEX_GLB_Swap_Flash_IO0_IO3_Pin => 40,
            ROM_API_INDEX_e::ROM_API_INDEX_GLB_Select_Internal_PSram => 41,
            ROM_API_INDEX_e::ROM_API_INDEX_GLB_GPIO_Init => 42,
            ROM_API_INDEX_e::ROM_API_INDEX_GLB_GPIO_OUTPUT_Enable => 43,
            ROM_API_INDEX_e::ROM_API_INDEX_GLB_GPIO_OUTPUT_Disable => 44,
            ROM_API_INDEX_e::ROM_API_INDEX_GLB_GPIO_Set_HZ => 45,
            ROM_API_INDEX_e::ROM_API_INDEX_GLB_Deswap_Flash_Pin => 46,
            ROM_API_INDEX_e::ROM_API_INDEX_GLB_Select_External_Flash => 47,
            ROM_API_INDEX_e::ROM_API_INDEX_GLB_GPIO_Get_Fun => 48,
            ROM_API_INDEX_e::ROM_API_INDEX_EF_Ctrl_Busy => 49,
            ROM_API_INDEX_e::ROM_API_INDEX_EF_Ctrl_Sw_AHB_Clk_0 => 50,
            ROM_API_INDEX_e::ROM_API_INDEX_EF_Ctrl_Load_Efuse_R0 => 51,
            ROM_API_INDEX_e::ROM_API_INDEX_EF_Ctrl_Clear => 52,
            ROM_API_INDEX_e::ROM_API_INDEX_EF_Ctrl_Get_Trim_Parity => 53,
            ROM_API_INDEX_e::ROM_API_INDEX_EF_Ctrl_Read_RC32K_Trim => 54,
            ROM_API_INDEX_e::ROM_API_INDEX_EF_Ctrl_Read_RC32M_Trim => 55,
            ROM_API_INDEX_e::ROM_API_INDEX_PDS_Trim_RC32M => 56,
            ROM_API_INDEX_e::ROM_API_INDEX_PDS_Select_RC32M_As_PLL_Ref => 57,
            ROM_API_INDEX_e::ROM_API_INDEX_PDS_Select_XTAL_As_PLL_Ref => 58,
            ROM_API_INDEX_e::ROM_API_INDEX_PDS_Power_On_PLL => 59,
            ROM_API_INDEX_e::ROM_API_INDEX_PDS_Enable_PLL_All_Clks => 60,
            ROM_API_INDEX_e::ROM_API_INDEX_PDS_Disable_PLL_All_Clks => 61,
            ROM_API_INDEX_e::ROM_API_INDEX_PDS_Enable_PLL_Clk => 62,
            ROM_API_INDEX_e::ROM_API_INDEX_PDS_Disable_PLL_Clk => 63,
            ROM_API_INDEX_e::ROM_API_INDEX_PDS_Power_Off_PLL => 64,
            ROM_API_INDEX_e::ROM_API_INDEX_PDS_Reset => 65,
            ROM_API_INDEX_e::ROM_API_INDEX_PDS_Enable => 66,
            ROM_API_INDEX_e::ROM_API_INDEX_PDS_Auto_Time_Config => 67,
            ROM_API_INDEX_e::ROM_API_INDEX_PDS_Auto_Enable => 68,
            ROM_API_INDEX_e::ROM_API_INDEX_PDS_Manual_Force_Turn_Off => 69,
            ROM_API_INDEX_e::ROM_API_INDEX_PDS_Manual_Force_Turn_On => 70,
            ROM_API_INDEX_e::ROM_API_INDEX_HBN_Enable => 71,
            ROM_API_INDEX_e::ROM_API_INDEX_HBN_Reset => 72,
            ROM_API_INDEX_e::ROM_API_INDEX_HBN_GPIO_Dbg_Pull_Cfg => 73,
            ROM_API_INDEX_e::ROM_API_INDEX_HBN_Trim_RC32K => 74,
            ROM_API_INDEX_e::ROM_API_INDEX_HBN_Set_ROOT_CLK_Sel => 75,
            ROM_API_INDEX_e::ROM_API_INDEX_XIP_SFlash_State_Save => 76,
            ROM_API_INDEX_e::ROM_API_INDEX_XIP_SFlash_State_Restore => 77,
            ROM_API_INDEX_e::ROM_API_INDEX_XIP_SFlash_Erase_Need_Lock => 78,
            ROM_API_INDEX_e::ROM_API_INDEX_XIP_SFlash_Write_Need_Lock => 79,
            ROM_API_INDEX_e::ROM_API_INDEX_XIP_SFlash_Read_Need_Lock => 80,
            ROM_API_INDEX_e::ROM_API_INDEX_XIP_SFlash_GetJedecId_Need_Lock => 81,
            ROM_API_INDEX_e::ROM_API_INDEX_XIP_SFlash_GetDeviceId_Need_Lock => 82,
            ROM_API_INDEX_e::ROM_API_INDEX_XIP_SFlash_GetUniqueId_Need_Lock => 83,
            ROM_API_INDEX_e::ROM_API_INDEX_XIP_SFlash_Read_Via_Cache_Need_Lock => 84,
            ROM_API_INDEX_e::ROM_API_INDEX_XIP_SFlash_Read_With_Lock => 85,
            ROM_API_INDEX_e::ROM_API_INDEX_XIP_SFlash_Write_With_Lock => 86,
            ROM_API_INDEX_e::ROM_API_INDEX_XIP_SFlash_Erase_With_Lock => 87,
            ROM_API_INDEX_e::ROM_API_INDEX_SFlash_Init => 88,
            ROM_API_INDEX_e::ROM_API_INDEX_SFlash_SetSPIMode => 89,
            ROM_API_INDEX_e::ROM_API_INDEX_SFlash_Read_Reg => 90,
            ROM_API_INDEX_e::ROM_API_INDEX_SFlash_Write_Reg => 91,
            ROM_API_INDEX_e::ROM_API_INDEX_SFlash_Read_Reg_With_Cmd => 92,
            ROM_API_INDEX_e::ROM_API_INDEX_SFlash_Write_Reg_With_Cmd => 93,
            ROM_API_INDEX_e::ROM_API_INDEX_SFlash_Busy => 94,
            ROM_API_INDEX_e::ROM_API_INDEX_SFlash_Write_Enable => 95,
            ROM_API_INDEX_e::ROM_API_INDEX_SFlash_Qspi_Enable => 96,
            ROM_API_INDEX_e::ROM_API_INDEX_SFlash_Volatile_Reg_Write_Enable => 97,
            ROM_API_INDEX_e::ROM_API_INDEX_SFlash_Chip_Erase => 98,
            ROM_API_INDEX_e::ROM_API_INDEX_SFlash_Sector_Erase => 99,
            ROM_API_INDEX_e::ROM_API_INDEX_SFlash_Blk32_Erase => 100,
            ROM_API_INDEX_e::ROM_API_INDEX_SFlash_Blk64_Erase => 101,
            ROM_API_INDEX_e::ROM_API_INDEX_SFlash_Erase => 102,
            ROM_API_INDEX_e::ROM_API_INDEX_SFlash_Program => 103,
            ROM_API_INDEX_e::ROM_API_INDEX_SFlash_GetUniqueId => 104,
            ROM_API_INDEX_e::ROM_API_INDEX_SFlash_GetJedecId => 105,
            ROM_API_INDEX_e::ROM_API_INDEX_SFlash_GetDeviceId => 106,
            ROM_API_INDEX_e::ROM_API_INDEX_SFlash_Powerdown => 107,
            ROM_API_INDEX_e::ROM_API_INDEX_SFlash_Releae_Powerdown => 108,
            ROM_API_INDEX_e::ROM_API_INDEX_SFlash_Restore_From_Powerdown => 109,
            ROM_API_INDEX_e::ROM_API_INDEX_SFlash_SetBurstWrap => 110,
            ROM_API_INDEX_e::ROM_API_INDEX_SFlash_DisableBurstWrap => 111,
            ROM_API_INDEX_e::ROM_API_INDEX_SFlash_Software_Reset => 112,
            ROM_API_INDEX_e::ROM_API_INDEX_SFlash_Reset_Continue_Read => 113,
            ROM_API_INDEX_e::ROM_API_INDEX_SFlash_Set_IDbus_Cfg => 114,
            ROM_API_INDEX_e::ROM_API_INDEX_SFlash_IDbus_Read_Enable => 115,
            ROM_API_INDEX_e::ROM_API_INDEX_SFlash_Cache_Read_Enable => 116,
            ROM_API_INDEX_e::ROM_API_INDEX_SFlash_Cache_Read_Disable => 117,
            ROM_API_INDEX_e::ROM_API_INDEX_SFlash_Read => 118,
            ROM_API_INDEX_e::ROM_API_INDEX_L1C_Cache_Enable_Set => 119,
            ROM_API_INDEX_e::ROM_API_INDEX_L1C_Cache_Write_Set => 120,
            ROM_API_INDEX_e::ROM_API_INDEX_L1C_Cache_Flush => 121,
            ROM_API_INDEX_e::ROM_API_INDEX_L1C_Cache_Hit_Count_Get => 122,
            ROM_API_INDEX_e::ROM_API_INDEX_L1C_Cache_Miss_Count_Get => 123,
            ROM_API_INDEX_e::ROM_API_INDEX_L1C_Cache_Read_Disable => 124,
            ROM_API_INDEX_e::ROM_API_INDEX_L1C_Set_Wrap => 125,
            ROM_API_INDEX_e::ROM_API_INDEX_L1C_Set_Way_Disable => 126,
            ROM_API_INDEX_e::ROM_API_INDEX_L1C_IROM_2T_Access_Set => 127,
            ROM_API_INDEX_e::ROM_API_INDEX_SF_Ctrl_Enable => 128,
            ROM_API_INDEX_e::ROM_API_INDEX_SF_Ctrl_Psram_Init => 129,
            ROM_API_INDEX_e::ROM_API_INDEX_SF_Ctrl_Get_Clock_Delay => 130,
            ROM_API_INDEX_e::ROM_API_INDEX_SF_Ctrl_Set_Clock_Delay => 131,
            ROM_API_INDEX_e::ROM_API_INDEX_SF_Ctrl_Cmds_Set => 132,
            ROM_API_INDEX_e::ROM_API_INDEX_SF_Ctrl_Set_Owner => 133,
            ROM_API_INDEX_e::ROM_API_INDEX_SF_Ctrl_Disable => 134,
            ROM_API_INDEX_e::ROM_API_INDEX_SF_Ctrl_Select_Pad => 135,
            ROM_API_INDEX_e::ROM_API_INDEX_SF_Ctrl_Select_Bank => 136,
            ROM_API_INDEX_e::ROM_API_INDEX_SF_Ctrl_AES_Enable_BE => 137,
            ROM_API_INDEX_e::ROM_API_INDEX_SF_Ctrl_AES_Enable_LE => 138,
            ROM_API_INDEX_e::ROM_API_INDEX_SF_Ctrl_AES_Set_Region => 139,
            ROM_API_INDEX_e::ROM_API_INDEX_SF_Ctrl_AES_Set_Key => 140,
            ROM_API_INDEX_e::ROM_API_INDEX_SF_Ctrl_AES_Set_Key_BE => 141,
            ROM_API_INDEX_e::ROM_API_INDEX_SF_Ctrl_AES_Set_IV => 142,
            ROM_API_INDEX_e::ROM_API_INDEX_SF_Ctrl_AES_Set_IV_BE => 143,
            ROM_API_INDEX_e::ROM_API_INDEX_SF_Ctrl_AES_Enable => 144,
            ROM_API_INDEX_e::ROM_API_INDEX_SF_Ctrl_AES_Disable => 145,
            ROM_API_INDEX_e::ROM_API_INDEX_SF_Ctrl_Is_AES_Enable => 146,
            ROM_API_INDEX_e::ROM_API_INDEX_SF_Ctrl_Set_Flash_Image_Offset => 147,
            ROM_API_INDEX_e::ROM_API_INDEX_SF_Ctrl_Get_Flash_Image_Offset => 148,
            ROM_API_INDEX_e::ROM_API_INDEX_SF_Ctrl_Select_Clock => 149,
            ROM_API_INDEX_e::ROM_API_INDEX_SF_Ctrl_SendCmd => 150,
            ROM_API_INDEX_e::ROM_API_INDEX_SF_Ctrl_Flash_Read_Icache_Set => 151,
            ROM_API_INDEX_e::ROM_API_INDEX_SF_Ctrl_Psram_Write_Icache_Set => 152,
            ROM_API_INDEX_e::ROM_API_INDEX_SF_Ctrl_Psram_Read_Icache_Set => 153,
            ROM_API_INDEX_e::ROM_API_INDEX_SF_Ctrl_GetBusyState => 154,
            ROM_API_INDEX_e::ROM_API_INDEX_SF_Cfg_Deinit_Ext_Flash_Gpio => 155,
            ROM_API_INDEX_e::ROM_API_INDEX_SF_Cfg_Init_Ext_Flash_Gpio => 156,
            ROM_API_INDEX_e::ROM_API_INDEX_SF_Cfg_Get_Flash_Cfg_Need_Lock => 157,
            ROM_API_INDEX_e::ROM_API_INDEX_SF_Cfg_Init_Flash_Gpio => 158,
            ROM_API_INDEX_e::ROM_API_INDEX_SF_Cfg_Flash_Identify => 159,
            ROM_API_INDEX_e::ROM_API_INDEX_Psram_Init => 160,
            ROM_API_INDEX_e::ROM_API_INDEX_Psram_ReadReg => 161,
            ROM_API_INDEX_e::ROM_API_INDEX_Psram_WriteReg => 162,
            ROM_API_INDEX_e::ROM_API_INDEX_Psram_SetDriveStrength => 163,
            ROM_API_INDEX_e::ROM_API_INDEX_Psram_SetBurstWrap => 164,
            ROM_API_INDEX_e::ROM_API_INDEX_Psram_ReadId => 165,
            ROM_API_INDEX_e::ROM_API_INDEX_Psram_EnterQuadMode => 166,
            ROM_API_INDEX_e::ROM_API_INDEX_Psram_ExitQuadMode => 167,
            ROM_API_INDEX_e::ROM_API_INDEX_Psram_ToggleBurstLength => 168,
            ROM_API_INDEX_e::ROM_API_INDEX_Psram_SoftwareReset => 169,
            ROM_API_INDEX_e::ROM_API_INDEX_Psram_Set_IDbus_Cfg => 170,
            ROM_API_INDEX_e::ROM_API_INDEX_Psram_Cache_Write_Set => 171,
            ROM_API_INDEX_e::ROM_API_INDEX_Psram_Write => 172,
            ROM_API_INDEX_e::ROM_API_INDEX_Psram_Read => 173,
            ROM_API_INDEX_e::ROM_API_INDEX_FUNC_INVALID_START => 174,
            ROM_API_INDEX_e::ROM_API_INDEX_FUNC_LAST_ENTRY => 511,
        }
    }

    /// Whether the slot holds a routine that can be called: its ordinal lies
    /// between [`ROM_API_INDEX_FUNC_START`] and [`ROM_API_INDEX_FUNC_LAST`].
    pub open spec fn holds_routine(self) -> bool {
        ROM_API_INDEX_FUNC_START <= self.ordinal() <= ROM_API_INDEX_FUNC_LAST
    }

    /// Computes [`Self::holds_routine`].
    pub fn is_routine(self) -> (b: bool)
        ensures
            b == self.holds_routine(),
    {
        let i: usize = self.index();
        ROM_API_INDEX_FUNC_START <= i && i <= ROM_API_INDEX_FUNC_LAST
    }
}

} // verus!
