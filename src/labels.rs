use vstd::prelude::*;

verus! {

/// The enumerations whose values have fixed descriptions.
#[derive(Debug, Clone, Copy, PartialEq, Eq, Structural)]
pub enum Named {
    Operation,
    AuxCoreGcpConnectionStatus,
    RfChannelType,
    ResponseCode,
    EvPriority,
    EvThrottleAdminStatus,
    GcpRecoveryAction,
    CoreMode,
    AdminStateType,
    OperationalMode,
    InterleaverDepth,
    RfPortType,
    DsModulationType,
    DsInterleaverType,
    CyclicPrefix,
    RollOffPeriodType,
    SubcarrierUsage,
    DsOfdmModulationType,
    UpstreamChannelType,
    UpstreamModulationType,
    QueryScQamModulationType,
    PwType,
    DepiPwSubtype,
    L2SublayerType,
    L2SublayerSubType,
    ChannelType,
    TopLevelRpdstate,
    NetworkAuthenticationRpdState,
    CoreSubState,
    UsOfdmaRollOffPeriodType,
    UsOfdmaCyclicPrefixType,
    SubcarrierSpacingType,
    UsOfdmaModulationType,
    PreambleType,
    SubcarrierUsageType,
    SidSfType,
    RpdConnectionStatusType,
    ResponseType,
    RpdGcpBackupCoreStatusType,
    OperationalStatusType,
    RpdResetType,
    FileControlType,
    UscStatusType,
    ScCfgTrigModeType,
    ScCfgTrigIucType,
}

/// The name of an enumeration, used for values it does not describe.
pub open spec fn named_name_spec(n: Named) -> Seq<char> {
    match n {
        Named::Operation => "Operation"@,
        Named::AuxCoreGcpConnectionStatus => "AuxCoreGcpConnectionStatus"@,
        Named::RfChannelType => "RfChannelType"@,
        Named::ResponseCode => "ResponseCode"@,
        Named::EvPriority => "EvPriority"@,
        Named::EvThrottleAdminStatus => "EvThrottleAdminStatus"@,
        Named::GcpRecoveryAction => "GcpRecoveryAction"@,
        Named::CoreMode => "CoreMode"@,
        Named::AdminStateType => "AdminStateType"@,
        Named::OperationalMode => "OperationalMode"@,
        Named::InterleaverDepth => "InterleaverDepth"@,
        Named::RfPortType => "RfPortType"@,
        Named::DsModulationType => "DsModulationType"@,
        Named::DsInterleaverType => "DsInterleaverType"@,
        Named::CyclicPrefix => "CyclicPrefix"@,
        Named::RollOffPeriodType => "RollOffPeriodType"@,
        Named::SubcarrierUsage => "SubcarrierUsage"@,
        Named::DsOfdmModulationType => "DsOfdmModulationType"@,
        Named::UpstreamChannelType => "UpstreamChannelType"@,
        Named::UpstreamModulationType => "UpstreamModulationType"@,
        Named::QueryScQamModulationType => "QueryScQamModulationType"@,
        Named::PwType => "PwType"@,
        Named::DepiPwSubtype => "DepiPwSubtype"@,
        Named::L2SublayerType => "L2SublayerType"@,
        Named::L2SublayerSubType => "L2SublayerSubType"@,
        Named::ChannelType => "ChannelType"@,
        Named::TopLevelRpdstate => "TopLevelRpdstate"@,
        Named::NetworkAuthenticationRpdState => "NetworkAuthenticationRpdState"@,
        Named::CoreSubState => "CoreSubState"@,
        Named::UsOfdmaRollOffPeriodType => "UsOfdmaRollOffPeriodType"@,
        Named::UsOfdmaCyclicPrefixType => "UsOfdmaCyclicPrefixType"@,
        Named::SubcarrierSpacingType => "SubcarrierSpacingType"@,
        Named::UsOfdmaModulationType => "UsOfdmaModulationType"@,
        Named::PreambleType => "PreambleType"@,
        Named::SubcarrierUsageType => "SubcarrierUsageType"@,
        Named::SidSfType => "SidSfType"@,
        Named::RpdConnectionStatusType => "RpdConnectionStatusType"@,
        Named::ResponseType => "ResponseType"@,
        Named::RpdGcpBackupCoreStatusType => "RpdGcpBackupCoreStatusType"@,
        Named::OperationalStatusType => "OperationalStatusType"@,
        Named::RpdResetType => "RpdResetType"@,
        Named::FileControlType => "FileControlType"@,
        Named::UscStatusType => "UscStatusType"@,
        Named::ScCfgTrigModeType => "ScCfgTrigModeType"@,
        Named::ScCfgTrigIucType => "ScCfgTrigIucType"@,
    }
}

/// The name of an enumeration.
pub fn named_name(n: Named) -> (r: &'static str)
    ensures
        r@ == named_name_spec(n),
{
    match n {
        Named::Operation => "Operation",
        Named::AuxCoreGcpConnectionStatus => "AuxCoreGcpConnectionStatus",
        Named::RfChannelType => "RfChannelType",
        Named::ResponseCode => "ResponseCode",
        Named::EvPriority => "EvPriority",
        Named::EvThrottleAdminStatus => "EvThrottleAdminStatus",
        Named::GcpRecoveryAction => "GcpRecoveryAction",
        Named::CoreMode => "CoreMode",
        Named::AdminStateType => "AdminStateType",
        Named::OperationalMode => "OperationalMode",
        Named::InterleaverDepth => "InterleaverDepth",
        Named::RfPortType => "RfPortType",
        Named::DsModulationType => "DsModulationType",
        Named::DsInterleaverType => "DsInterleaverType",
        Named::CyclicPrefix => "CyclicPrefix",
        Named::RollOffPeriodType => "RollOffPeriodType",
        Named::SubcarrierUsage => "SubcarrierUsage",
        Named::DsOfdmModulationType => "DsOfdmModulationType",
        Named::UpstreamChannelType => "UpstreamChannelType",
        Named::UpstreamModulationType => "UpstreamModulationType",
        Named::QueryScQamModulationType => "QueryScQamModulationType",
        Named::PwType => "PwType",
        Named::DepiPwSubtype => "DepiPwSubtype",
        Named::L2SublayerType => "L2SublayerType",
        Named::L2SublayerSubType => "L2SublayerSubType",
        Named::ChannelType => "ChannelType",
        Named::TopLevelRpdstate => "TopLevelRpdstate",
        Named::NetworkAuthenticationRpdState => "NetworkAuthenticationRpdState",
        Named::CoreSubState => "CoreSubState",
        Named::UsOfdmaRollOffPeriodType => "UsOfdmaRollOffPeriodType",
        Named::UsOfdmaCyclicPrefixType => "UsOfdmaCyclicPrefixType",
        Named::SubcarrierSpacingType => "SubcarrierSpacingType",
        Named::UsOfdmaModulationType => "UsOfdmaModulationType",
        Named::PreambleType => "PreambleType",
        Named::SubcarrierUsageType => "SubcarrierUsageType",
        Named::SidSfType => "SidSfType",
        Named::RpdConnectionStatusType => "RpdConnectionStatusType",
        Named::ResponseType => "ResponseType",
        Named::RpdGcpBackupCoreStatusType => "RpdGcpBackupCoreStatusType",
        Named::OperationalStatusType => "OperationalStatusType",
        Named::RpdResetType => "RpdResetType",
        Named::FileControlType => "FileControlType",
        Named::UscStatusType => "UscStatusType",
        Named::ScCfgTrigModeType => "ScCfgTrigModeType",
        Named::ScCfgTrigIucType => "ScCfgTrigIucType",
    }
}

/// The description of value `v` in an enumeration; `None` where it has none.
pub open spec fn named_spec(n: Named, v: u16) -> Option<Seq<char>> {
    match n {
        Named::Operation => match v {
            1 => Some("(1) Read"@),
            2 => Some("(2) Write"@),
            3 => Some("(3) Delete"@),
            4 => Some("(4) ReadResponse"@),
            5 => Some("(5) WriteResponse"@),
            6 => Some("(6) DeleteResponse"@),
            7 => Some("(7) AllocateWrite"@),
            8 => Some("(8) AllocateWriteResponse"@),
            _ => None,
        },
        Named::AuxCoreGcpConnectionStatus => match v {
            0 => Some("(0) - Not connected"@),
            1 => Some("(1) - Connected"@),
            2 => Some("(2) - Reconnecting"@),
            3 => Some("(3) - Handover to Backup Core initiated by RPD "@),
            4 => Some("(4) - Backup Core active"@),
            5 => Some("(5) - Backup Core rejected handover "@),
            6 => Some("(6) - No Backup Core found"@),
            7 => Some("(7) - Handover to Backup Core failed"@),
            8 => Some("(8) - Handover to Backup Core initiated by Active Core"@),
            _ => None,
        },
        Named::RfChannelType => match v {
            1 => Some("(1) - DsScQam."@),
            2 => Some("(2) - DsOfdm."@),
            3 => Some("(3) - Ndf"@),
            4 => Some("(4) - DsScte55d1."@),
            5 => Some("(5) - UsAtdma."@),
            6 => Some("(6) - UsOfdma."@),
            7 => Some("(7) - reserved"@),
            8 => Some("(8) - Ndr channel"@),
            9 => Some("(9) - UsScte55d1."@),
            10 => Some("(10) - DsScte55d2."@),
            11 => Some("(11) - UsScte55d2."@),
            _ => None,
        },
        Named::ResponseCode => match v {
            0 => Some("(0) - NoError"@),
            1 => Some("(1) - GeneralError"@),
            2 => Some("(2) - ResponseTooBig"@),
            3 => Some("(3) - AttributeNotFound"@),
            4 => Some("(4) - BadIndex"@),
            5 => Some("(5) - WriteToReadOnly"@),
            6 => Some("(6) - InconsistentValue"@),
            7 => Some("(7) - WrongLength"@),
            8 => Some("(8) - WrongValue"@),
            9 => Some("(9) - ResourceUnavailable"@),
            10 => Some("(10) - AuthorizationFailure"@),
            11 => Some("(11) - AttributeMissing"@),
            12 => Some("(12) - AllocationFailure"@),
            13 => Some("(13) - AllocationNoOwner"@),
            14 => Some("(14) - ErrorProcessingUCD"@),
            15 => Some("(15) - ErrorProcessingOCD"@),
            16 => Some("(16) - ErrorProcessingDPD"@),
            17 => Some("(17) - SessionIdInUse"@),
            18 => Some("(18) - DoesNotExist"@),
            _ => None,
        },
        Named::EvPriority => match v {
            1 => Some("(1) - emergency"@),
            2 => Some("(2) - alert"@),
            3 => Some("(3) - critical"@),
            4 => Some("(4) - error"@),
            5 => Some("(5) - warning"@),
            6 => Some("(6) - notice"@),
            7 => Some("(7) - information"@),
            8 => Some("(8) - debug"@),
            _ => None,
        },
        Named::EvThrottleAdminStatus => match v {
            1 => Some("(1) - unconstrained"@),
            2 => Some("(2) - maintainBelowThreshold"@),
            3 => Some("(3) - stopAtThreshold"@),
            4 => Some("(4) - inhibited"@),
            _ => None,
        },
        Named::GcpRecoveryAction => match v {
            1 => Some("(1) - GcpWaitForActionFromCore."@),
            2 => Some("(2) - GcpReconnectToTheSameCore."@),
            3 => Some("(3) - GcpHandoverToBackupCore."@),
            4 => Some("(4) - WaitAndReboot."@),
            5 => Some("(5) - GcpHandoverToBackupCoreAfterReconnectFail."@),
            _ => None,
        },
        Named::CoreMode => match v {
            1 => Some("(1) - Active"@),
            2 => Some("(2) - Backup"@),
            3 => Some("(3) - NotActing"@),
            4 => Some("(4) - DecisionPending "@),
            5 => Some("(5) - OutOfService"@),
            6 => Some("(6) - ContactPending "@),
            7 => Some("(7) - Deprecated"@),
            8 => Some("(8) - Redirect"@),
            _ => None,
        },
        Named::AdminStateType => match v {
            1 => Some("(1) - other"@),
            2 => Some("(2) - up"@),
            3 => Some("(3) - down"@),
            4 => Some("(4) - testing "@),
            _ => None,
        },
        Named::OperationalMode => match v {
            1 => Some("(1) - Other"@),
            2 => Some("(2) - Channel operates as DOCSIS channel."@),
            3 => Some("(3) - Channel operates as a synchronous MPEG video channel. "@),
            4 => Some("(4) - Channel operates as an asynchronous MPEG video channel."@),
            5 => Some("(5) - Channel operates as CW carrier; that is as a Pilot Tone or an Alignment Carrier."@),
            _ => None,
        },
        Named::InterleaverDepth => match v {
            1 => Some("(1) - unknown"@),
            2 => Some("(2) - other"@),
            3 => Some("(3) - taps8Increment16"@),
            4 => Some("(4) - taps16Increment8"@),
            5 => Some("(5) - taps32Increment4"@),
            6 => Some("(6) - taps64Increment2"@),
            7 => Some("(7) - taps128Increment1"@),
            8 => Some("(8) - taps12increment17"@),
            9 => Some("(9) - taps128Increment2"@),
            10 => Some("(10) - taps128Increment3"@),
            11 => Some("(11) - taps128Increment4"@),
            12 => Some("(12) - taps128Increment5"@),
            13 => Some("(13) - taps128Increment6"@),
            14 => Some("(14) - taps128Increment7"@),
            15 => Some("(15) - taps128Increment8"@),
            _ => None,
        },
        Named::RfPortType => match v {
            1 => Some("(1) - DsRfPort"@),
            2 => Some("(2) - UsRfPort"@),
            _ => None,
        },
        Named::DsModulationType => match v {
            1 => Some("(1) - Unknown"@),
            2 => Some("(2) - Other"@),
            3 => Some("(3) - Qam64"@),
            4 => Some("(4) - Qam256"@),
            _ => None,
        },
        Named::DsInterleaverType => match v {
            1 => Some("(1) - Unknown"@),
            2 => Some("(2) - Other"@),
            3 => Some("(3) - annex A"@),
            4 => Some("(4) - annex B"@),
            5 => Some("(5) - annex C"@),
            _ => None,
        },
        Named::CyclicPrefix => match v {
            1 => Some("(1) - 192"@),
            2 => Some("(2) - 256"@),
            3 => Some("(3) - 512"@),
            4 => Some("(4) - 768"@),
            5 => Some("(5) - 1024"@),
            _ => None,
        },
        Named::RollOffPeriodType => match v {
            1 => Some("(1) - 0"@),
            2 => Some("(2) - 64"@),
            3 => Some("(3) - 128"@),
            4 => Some("(4) - 192"@),
            5 => Some("(5) - 256"@),
            _ => None,
        },
        Named::SubcarrierUsage => match v {
            1 => Some("(1) - Other"@),
            2 => Some("(2) - Data"@),
            3 => Some("(3) - Plc"@),
            4 => Some("(4) - Continuous Pilot"@),
            5 => Some("(5) - Excluded"@),
            6 => Some("(5) - Unused"@),
            _ => None,
        },
        Named::DsOfdmModulationType => match v {
            1 => Some("(1) - Other"@),
            2 => Some("(2) - zeroValued"@),
            3 => Some("(3) - qpsk"@),
            4 => Some("(4) - qam16"@),
            5 => Some("(5) - qam64"@),
            6 => Some("(6) - qam128"@),
            7 => Some("(7) - qam256"@),
            8 => Some("(8) - qam512"@),
            9 => Some("(9) - qam1024"@),
            10 => Some("(10) - qam2048"@),
            11 => Some("(11) - qam4096"@),
            12 => Some("(12) - qam8192"@),
            13 => Some("(13) - qam16384"@),
            _ => None,
        },
        Named::UpstreamChannelType => match v {
            0 => Some("(0) - Unknown(0)"@),
            1 => Some("(1) - TDMA"@),
            2 => Some("(2) - ATDMA"@),
            3 => Some("(3) - Reserved"@),
            4 => Some("(4) - TDMAandATDMA"@),
            _ => None,
        },
        Named::UpstreamModulationType => match v {
            0 => Some("(0) - other"@),
            1 => Some("(1) - QPSK"@),
            2 => Some("(2) - QAM16"@),
            3 => Some("(3) - QAM32"@),
            4 => Some("(4) - QAM64"@),
            5 => Some("(5) - QAM128"@),
            _ => None,
        },
        Named::QueryScQamModulationType => match v {
            1 => Some("(1) - other"@),
            2 => Some("(2) - QPSK"@),
            3 => Some("(3) - QAM8"@),
            4 => Some("(4) - QAM16"@),
            5 => Some("(5) - QAM32"@),
            6 => Some("(6) - QAM64"@),
            7 => Some("(7) - QAM128"@),
            _ => None,
        },
        Named::PwType => match v {
            12 => Some("(0x000C) - MPTPW, MPT Pseudowire Type"@),
            13 => Some("(0x000D) -  PSPPW, PSP Pseudowire"@),
            _ => None,
        },
        Named::DepiPwSubtype => match v {
            1 => Some("(1) - MPT-DEPI-PW, MPT DEPI Pseudowire Subtype"@),
            15 => Some("(15) - PSP-SPECMAN Pseudowire Subtype"@),
            16 => Some("(16) - PSP-PNM Pseudowire Subtype"@),
            18 => Some("(18) - MPT-55-1-RET Pseudowire Subtype"@),
            21 => Some("(21) - PSP-NDF Pseudowire Subtype"@),
            22 => Some("(22) - PSP-NDR Pseudowire Subtype"@),
            _ => None,
        },
        Named::L2SublayerType => match v {
            3 => Some("(3) - MPT L2-Specific Sublayer Type."@),
            4 => Some("(4) - PSP L2-Specific Sublayer Type."@),
            _ => None,
        },
        Named::L2SublayerSubType => match v {
            1 => Some("(1) - MPT DEPI L2-Specific Sublayer Subtype."@),
            15 => Some("(15) - PSP-SPECMAN L2-Specific Sublayer Subtype."@),
            16 => Some("(16) - PSP-PNM L2-Specific Sublayer Subtype."@),
            18 => Some("(18) - MPT-55-1-RET L2-Specific Sublayer Subtype."@),
            21 => Some("(21) - PSP-NDF L2-Specific Sublayer Subtype."@),
            22 => Some("(22) - PSP-NDR L2-Specific Sublayer Subtype."@),
            _ => None,
        },
        Named::ChannelType => match v {
            3 => Some("(3) - DS-SCQAM"@),
            6 => Some("(6) - SCTE-55-1-FWD"@),
            7 => Some("(7) - SCTE-55-1-RET"@),
            10 => Some("(10) - NDF"@),
            11 => Some("(11) - NDR"@),
            12 => Some("(12) - PNM-UTSC-SAC"@),
            _ => None,
        },
        Named::TopLevelRpdstate => match v {
            1 => Some("(1) - LocalRPDInit"@),
            2 => Some("(2) - NetworkAuthentication"@),
            3 => Some("(3) - IPAddressAssignment"@),
            4 => Some("(4) - WaitingTOD"@),
            5 => Some("(5) - ConnectPrincipalCore"@),
            6 => Some("(6) - WaitOperationalPrincipalCore"@),
            7 => Some("(7) - OperationalPrincipalCore"@),
            _ => None,
        },
        Named::NetworkAuthenticationRpdState => match v {
            1 => Some("(1) - WaitForEapReq"@),
            2 => Some("(2) - Execute802.1x"@),
            3 => Some("(3) - SleepAfterFailure"@),
            4 => Some("(4) - OperationalAuthenticated"@),
            5 => Some("(5) - OperationalNotAuthenticated"@),
            _ => None,
        },
        Named::CoreSubState => match v {
            1 => Some("(1) - AuthenticateToCore"@),
            2 => Some("(2) - GcpConfigAuxCore"@),
            3 => Some("(3) - WaitForRcpIraReq"@),
            4 => Some("(4) - WaitForConfigRexReq"@),
            5 => Some("(5) - WaitOperationalAuxCore"@),
            6 => Some("(6) - OperationalAuxCore"@),
            7 => Some("(7) - OutOfService"@),
            _ => None,
        },
        Named::UsOfdmaRollOffPeriodType => match v {
            1 => Some("(1) - 0 samples"@),
            2 => Some("(2) - 32 samples"@),
            3 => Some("(3) - 64 samples"@),
            4 => Some("(4) - 96 samples"@),
            5 => Some("(5) - 128 samples"@),
            6 => Some("(6) - 160 samples"@),
            7 => Some("(7) - 192 samples"@),
            8 => Some("(8) - 224 samples"@),
            _ => None,
        },
        Named::UsOfdmaCyclicPrefixType => match v {
            1 => Some("(1) - 96 samples"@),
            2 => Some("(2) - 128 samples"@),
            3 => Some("(3) - 160 samples"@),
            4 => Some("(4) - 192 samples"@),
            5 => Some("(5) - 224 samples"@),
            6 => Some("(6) - 256 samples"@),
            7 => Some("(7) - 288 samples"@),
            8 => Some("(8) - 320 samples"@),
            9 => Some("(9) - 384 samples"@),
            10 => Some("(10) - 512 samples"@),
            11 => Some("(11) - 640 samples"@),
            _ => None,
        },
        Named::SubcarrierSpacingType => match v {
            1 => Some("(1) - 25 KHz"@),
            2 => Some("(2) - 50 KHz"@),
            _ => None,
        },
        Named::UsOfdmaModulationType => match v {
            1 => Some("(1) - other"@),
            2 => Some("(2) - zeroValued"@),
            3 => Some("(3) - qpsk"@),
            4 => Some("(4) - qam8"@),
            5 => Some("(5) - qam16"@),
            6 => Some("(6) - qam32"@),
            7 => Some("(7) - qam64"@),
            8 => Some("(8) - qam128"@),
            9 => Some("(9) - qam256"@),
            10 => Some("(10) - qam512"@),
            11 => Some("(11) - qam1024"@),
            12 => Some("(12) - qam2048"@),
            13 => Some("(13) - qam4096"@),
            _ => None,
        },
        Named::PreambleType => match v {
            1 => Some("(1) - QPSK0"@),
            2 => Some("(2) - QPSK1"@),
            _ => None,
        },
        Named::SubcarrierUsageType => match v {
            1 => Some("(1) - Other"@),
            2 => Some("(2) - Data"@),
            3 => Some("(3) - Exclude"@),
            4 => Some("(4) - Unused"@),
            _ => None,
        },
        Named::SidSfType => match v {
            0 => Some("(0) - SID is disabled"@),
            1 => Some("(1) - Other"@),
            2 => Some("(2) - Legacy (SC-QAM Ch)"@),
            3 => Some("(3) - Segment-header-on"@),
            4 => Some("(4) - Segment-header-off"@),
            _ => None,
        },
        Named::RpdConnectionStatusType => match v {
            1 => Some("(1) - Inactive"@),
            2 => Some("(2) - Connecting"@),
            3 => Some("(3) - Connected"@),
            4 => Some("(4) - ReConnecting"@),
            _ => None,
        },
        Named::ResponseType => match v {
            0 => Some("(0) - noAction"@),
            1 => Some("(1) - Accept"@),
            2 => Some("(2) - Reject"@),
            _ => None,
        },
        Named::RpdGcpBackupCoreStatusType => match v {
            1 => Some("(1) - WaitForCoreMode"@),
            2 => Some("(2) - Active"@),
            3 => Some("(3) - Backup"@),
            4 => Some("(4) - CoreNotActing"@),
            5 => Some("(5) - Handover"@),
            _ => None,
        },
        Named::OperationalStatusType => match v {
            1 => Some("(1) - up"@),
            2 => Some("(2) - down"@),
            _ => None,
        },
        Named::RpdResetType => match v {
            1 => Some("(1) - softReset"@),
            2 => Some("(2) - hardReset"@),
            3 => Some("(3) - nvReset"@),
            4 => Some("(4) - factoryReset"@),
            _ => None,
        },
        Named::FileControlType => match v {
            1 => Some("(1) - other"@),
            2 => Some("(2) - upload"@),
            3 => Some("(3) - cancelUpload"@),
            4 => Some("(4) - deleteFile"@),
            _ => None,
        },
        Named::UscStatusType => match v {
            1 => Some("(1) - other"@),
            2 => Some("(2) - inactive"@),
            3 => Some("(3) - busy"@),
            4 => Some("(4) - sampleReady"@),
            5 => Some("(5) - error"@),
            6 => Some("(6) - resourceUnavailable"@),
            7 => Some("(7) - sampleTruncated"@),
            _ => None,
        },
        Named::ScCfgTrigModeType => match v {
            1 => Some("(1) - other"@),
            2 => Some("(2) - freeRunning"@),
            3 => Some("(3) - miniSlotCount"@),
            4 => Some("(4) - sid"@),
            5 => Some("(5) - no used"@),
            6 => Some("(6) - quietProbeSymbol"@),
            7 => Some("(7) - burstluc"@),
            8 => Some("(7) - activeProveSymbol"@),
            9 => Some("(7) - activeProbeSymbol"@),
            _ => None,
        },
        Named::ScCfgTrigIucType => match v {
            1 => Some("(1) - other"@),
            2 => Some("(2) - luc1"@),
            3 => Some("(3) - luc2"@),
            4 => Some("(4) - luc3"@),
            5 => Some("(5) - luc4"@),
            6 => Some("(6) - luc5"@),
            7 => Some("(7) - luc6"@),
            8 => Some("(8) - luc9"@),
            9 => Some("(9) - luc10"@),
            10 => Some("(10) - luc11"@),
            11 => Some("(11) - luc12"@),
            12 => Some("(12) - luc13"@),
            _ => None,
        },
    }
}

/// Describes value `v` in an enumeration.
pub fn named_label(n: Named, v: u16) -> (r: Option<&'static str>)
    ensures
        match (r, named_spec(n, v)) {
            (Some(l), Some(ls)) => l@ == ls,
            (None, None) => true,
            _ => false,
        },
{
    match n {
        Named::Operation => match v {
            1 => Some("(1) Read"),
            2 => Some("(2) Write"),
            3 => Some("(3) Delete"),
            4 => Some("(4) ReadResponse"),
            5 => Some("(5) WriteResponse"),
            6 => Some("(6) DeleteResponse"),
            7 => Some("(7) AllocateWrite"),
            8 => Some("(8) AllocateWriteResponse"),
            _ => None,
        },
        Named::AuxCoreGcpConnectionStatus => match v {
            0 => Some("(0) - Not connected"),
            1 => Some("(1) - Connected"),
            2 => Some("(2) - Reconnecting"),
            3 => Some("(3) - Handover to Backup Core initiated by RPD "),
            4 => Some("(4) - Backup Core active"),
            5 => Some("(5) - Backup Core rejected handover "),
            6 => Some("(6) - No Backup Core found"),
            7 => Some("(7) - Handover to Backup Core failed"),
            8 => Some("(8) - Handover to Backup Core initiated by Active Core"),
            _ => None,
        },
        Named::RfChannelType => match v {
            1 => Some("(1) - DsScQam."),
            2 => Some("(2) - DsOfdm."),
            3 => Some("(3) - Ndf"),
            4 => Some("(4) - DsScte55d1."),
            5 => Some("(5) - UsAtdma."),
            6 => Some("(6) - UsOfdma."),
            7 => Some("(7) - reserved"),
            8 => Some("(8) - Ndr channel"),
            9 => Some("(9) - UsScte55d1."),
            10 => Some("(10) - DsScte55d2."),
            11 => Some("(11) - UsScte55d2."),
            _ => None,
        },
        Named::ResponseCode => match v {
            0 => Some("(0) - NoError"),
            1 => Some("(1) - GeneralError"),
            2 => Some("(2) - ResponseTooBig"),
            3 => Some("(3) - AttributeNotFound"),
            4 => Some("(4) - BadIndex"),
            5 => Some("(5) - WriteToReadOnly"),
            6 => Some("(6) - InconsistentValue"),
            7 => Some("(7) - WrongLength"),
            8 => Some("(8) - WrongValue"),
            9 => Some("(9) - ResourceUnavailable"),
            10 => Some("(10) - AuthorizationFailure"),
            11 => Some("(11) - AttributeMissing"),
            12 => Some("(12) - AllocationFailure"),
            13 => Some("(13) - AllocationNoOwner"),
            14 => Some("(14) - ErrorProcessingUCD"),
            15 => Some("(15) - ErrorProcessingOCD"),
            16 => Some("(16) - ErrorProcessingDPD"),
            17 => Some("(17) - SessionIdInUse"),
            18 => Some("(18) - DoesNotExist"),
            _ => None,
        },
        Named::EvPriority => match v {
            1 => Some("(1) - emergency"),
            2 => Some("(2) - alert"),
            3 => Some("(3) - critical"),
            4 => Some("(4) - error"),
            5 => Some("(5) - warning"),
            6 => Some("(6) - notice"),
            7 => Some("(7) - information"),
            8 => Some("(8) - debug"),
            _ => None,
        },
        Named::EvThrottleAdminStatus => match v {
            1 => Some("(1) - unconstrained"),
            2 => Some("(2) - maintainBelowThreshold"),
            3 => Some("(3) - stopAtThreshold"),
            4 => Some("(4) - inhibited"),
            _ => None,
        },
        Named::GcpRecoveryAction => match v {
            1 => Some("(1) - GcpWaitForActionFromCore."),
            2 => Some("(2) - GcpReconnectToTheSameCore."),
            3 => Some("(3) - GcpHandoverToBackupCore."),
            4 => Some("(4) - WaitAndReboot."),
            5 => Some("(5) - GcpHandoverToBackupCoreAfterReconnectFail."),
            _ => None,
        },
        Named::CoreMode => match v {
            1 => Some("(1) - Active"),
            2 => Some("(2) - Backup"),
            3 => Some("(3) - NotActing"),
            4 => Some("(4) - DecisionPending "),
            5 => Some("(5) - OutOfService"),
            6 => Some("(6) - ContactPending "),
            7 => Some("(7) - Deprecated"),
            8 => Some("(8) - Redirect"),
            _ => None,
        },
        Named::AdminStateType => match v {
            1 => Some("(1) - other"),
            2 => Some("(2) - up"),
            3 => Some("(3) - down"),
            4 => Some("(4) - testing "),
            _ => None,
        },
        Named::OperationalMode => match v {
            1 => Some("(1) - Other"),
            2 => Some("(2) - Channel operates as DOCSIS channel."),
            3 => Some("(3) - Channel operates as a synchronous MPEG video channel. "),
            4 => Some("(4) - Channel operates as an asynchronous MPEG video channel."),
            5 => Some("(5) - Channel operates as CW carrier; that is as a Pilot Tone or an Alignment Carrier."),
            _ => None,
        },
        Named::InterleaverDepth => match v {
            1 => Some("(1) - unknown"),
            2 => Some("(2) - other"),
            3 => Some("(3) - taps8Increment16"),
            4 => Some("(4) - taps16Increment8"),
            5 => Some("(5) - taps32Increment4"),
            6 => Some("(6) - taps64Increment2"),
            7 => Some("(7) - taps128Increment1"),
            8 => Some("(8) - taps12increment17"),
            9 => Some("(9) - taps128Increment2"),
            10 => Some("(10) - taps128Increment3"),
            11 => Some("(11) - taps128Increment4"),
            12 => Some("(12) - taps128Increment5"),
            13 => Some("(13) - taps128Increment6"),
            14 => Some("(14) - taps128Increment7"),
            15 => Some("(15) - taps128Increment8"),
            _ => None,
        },
        Named::RfPortType => match v {
            1 => Some("(1) - DsRfPort"),
            2 => Some("(2) - UsRfPort"),
            _ => None,
        },
        Named::DsModulationType => match v {
            1 => Some("(1) - Unknown"),
            2 => Some("(2) - Other"),
            3 => Some("(3) - Qam64"),
            4 => Some("(4) - Qam256"),
            _ => None,
        },
        Named::DsInterleaverType => match v {
            1 => Some("(1) - Unknown"),
            2 => Some("(2) - Other"),
            3 => Some("(3) - annex A"),
            4 => Some("(4) - annex B"),
            5 => Some("(5) - annex C"),
            _ => None,
        },
        Named::CyclicPrefix => match v {
            1 => Some("(1) - 192"),
            2 => Some("(2) - 256"),
            3 => Some("(3) - 512"),
            4 => Some("(4) - 768"),
            5 => Some("(5) - 1024"),
            _ => None,
        },
        Named::RollOffPeriodType => match v {
            1 => Some("(1) - 0"),
            2 => Some("(2) - 64"),
            3 => Some("(3) - 128"),
            4 => Some("(4) - 192"),
            5 => Some("(5) - 256"),
            _ => None,
        },
        Named::SubcarrierUsage => match v {
            1 => Some("(1) - Other"),
            2 => Some("(2) - Data"),
            3 => Some("(3) - Plc"),
            4 => Some("(4) - Continuous Pilot"),
            5 => Some("(5) - Excluded"),
            6 => Some("(5) - Unused"),
            _ => None,
        },
        Named::DsOfdmModulationType => match v {
            1 => Some("(1) - Other"),
            2 => Some("(2) - zeroValued"),
            3 => Some("(3) - qpsk"),
            4 => Some("(4) - qam16"),
            5 => Some("(5) - qam64"),
            6 => Some("(6) - qam128"),
            7 => Some("(7) - qam256"),
            8 => Some("(8) - qam512"),
            9 => Some("(9) - qam1024"),
            10 => Some("(10) - qam2048"),
            11 => Some("(11) - qam4096"),
            12 => Some("(12) - qam8192"),
            13 => Some("(13) - qam16384"),
            _ => None,
        },
        Named::UpstreamChannelType => match v {
            0 => Some("(0) - Unknown(0)"),
            1 => Some("(1) - TDMA"),
            2 => Some("(2) - ATDMA"),
            3 => Some("(3) - Reserved"),
            4 => Some("(4) - TDMAandATDMA"),
            _ => None,
        },
        Named::UpstreamModulationType => match v {
            0 => Some("(0) - other"),
            1 => Some("(1) - QPSK"),
            2 => Some("(2) - QAM16"),
            3 => Some("(3) - QAM32"),
            4 => Some("(4) - QAM64"),
            5 => Some("(5) - QAM128"),
            _ => None,
        },
        Named::QueryScQamModulationType => match v {
            1 => Some("(1) - other"),
            2 => Some("(2) - QPSK"),
            3 => Some("(3) - QAM8"),
            4 => Some("(4) - QAM16"),
            5 => Some("(5) - QAM32"),
            6 => Some("(6) - QAM64"),
            7 => Some("(7) - QAM128"),
            _ => None,
        },
        Named::PwType => match v {
            12 => Some("(0x000C) - MPTPW, MPT Pseudowire Type"),
            13 => Some("(0x000D) -  PSPPW, PSP Pseudowire"),
            _ => None,
        },
        Named::DepiPwSubtype => match v {
            1 => Some("(1) - MPT-DEPI-PW, MPT DEPI Pseudowire Subtype"),
            15 => Some("(15) - PSP-SPECMAN Pseudowire Subtype"),
            16 => Some("(16) - PSP-PNM Pseudowire Subtype"),
            18 => Some("(18) - MPT-55-1-RET Pseudowire Subtype"),
            21 => Some("(21) - PSP-NDF Pseudowire Subtype"),
            22 => Some("(22) - PSP-NDR Pseudowire Subtype"),
            _ => None,
        },
        Named::L2SublayerType => match v {
            3 => Some("(3) - MPT L2-Specific Sublayer Type."),
            4 => Some("(4) - PSP L2-Specific Sublayer Type."),
            _ => None,
        },
        Named::L2SublayerSubType => match v {
            1 => Some("(1) - MPT DEPI L2-Specific Sublayer Subtype."),
            15 => Some("(15) - PSP-SPECMAN L2-Specific Sublayer Subtype."),
            16 => Some("(16) - PSP-PNM L2-Specific Sublayer Subtype."),
            18 => Some("(18) - MPT-55-1-RET L2-Specific Sublayer Subtype."),
            21 => Some("(21) - PSP-NDF L2-Specific Sublayer Subtype."),
            22 => Some("(22) - PSP-NDR L2-Specific Sublayer Subtype."),
            _ => None,
        },
        Named::ChannelType => match v {
            3 => Some("(3) - DS-SCQAM"),
            6 => Some("(6) - SCTE-55-1-FWD"),
            7 => Some("(7) - SCTE-55-1-RET"),
            10 => Some("(10) - NDF"),
            11 => Some("(11) - NDR"),
            12 => Some("(12) - PNM-UTSC-SAC"),
            _ => None,
        },
        Named::TopLevelRpdstate => match v {
            1 => Some("(1) - LocalRPDInit"),
            2 => Some("(2) - NetworkAuthentication"),
            3 => Some("(3) - IPAddressAssignment"),
            4 => Some("(4) - WaitingTOD"),
            5 => Some("(5) - ConnectPrincipalCore"),
            6 => Some("(6) - WaitOperationalPrincipalCore"),
            7 => Some("(7) - OperationalPrincipalCore"),
            _ => None,
        },
        Named::NetworkAuthenticationRpdState => match v {
            1 => Some("(1) - WaitForEapReq"),
            2 => Some("(2) - Execute802.1x"),
            3 => Some("(3) - SleepAfterFailure"),
            4 => Some("(4) - OperationalAuthenticated"),
            5 => Some("(5) - OperationalNotAuthenticated"),
            _ => None,
        },
        Named::CoreSubState => match v {
            1 => Some("(1) - AuthenticateToCore"),
            2 => Some("(2) - GcpConfigAuxCore"),
            3 => Some("(3) - WaitForRcpIraReq"),
            4 => Some("(4) - WaitForConfigRexReq"),
            5 => Some("(5) - WaitOperationalAuxCore"),
            6 => Some("(6) - OperationalAuxCore"),
            7 => Some("(7) - OutOfService"),
            _ => None,
        },
        Named::UsOfdmaRollOffPeriodType => match v {
            1 => Some("(1) - 0 samples"),
            2 => Some("(2) - 32 samples"),
            3 => Some("(3) - 64 samples"),
            4 => Some("(4) - 96 samples"),
            5 => Some("(5) - 128 samples"),
            6 => Some("(6) - 160 samples"),
            7 => Some("(7) - 192 samples"),
            8 => Some("(8) - 224 samples"),
            _ => None,
        },
        Named::UsOfdmaCyclicPrefixType => match v {
            1 => Some("(1) - 96 samples"),
            2 => Some("(2) - 128 samples"),
            3 => Some("(3) - 160 samples"),
            4 => Some("(4) - 192 samples"),
            5 => Some("(5) - 224 samples"),
            6 => Some("(6) - 256 samples"),
            7 => Some("(7) - 288 samples"),
            8 => Some("(8) - 320 samples"),
            9 => Some("(9) - 384 samples"),
            10 => Some("(10) - 512 samples"),
            11 => Some("(11) - 640 samples"),
            _ => None,
        },
        Named::SubcarrierSpacingType => match v {
            1 => Some("(1) - 25 KHz"),
            2 => Some("(2) - 50 KHz"),
            _ => None,
        },
        Named::UsOfdmaModulationType => match v {
            1 => Some("(1) - other"),
            2 => Some("(2) - zeroValued"),
            3 => Some("(3) - qpsk"),
            4 => Some("(4) - qam8"),
            5 => Some("(5) - qam16"),
            6 => Some("(6) - qam32"),
            7 => Some("(7) - qam64"),
            8 => Some("(8) - qam128"),
            9 => Some("(9) - qam256"),
            10 => Some("(10) - qam512"),
            11 => Some("(11) - qam1024"),
            12 => Some("(12) - qam2048"),
            13 => Some("(13) - qam4096"),
            _ => None,
        },
        Named::PreambleType => match v {
            1 => Some("(1) - QPSK0"),
            2 => Some("(2) - QPSK1"),
            _ => None,
        },
        Named::SubcarrierUsageType => match v {
            1 => Some("(1) - Other"),
            2 => Some("(2) - Data"),
            3 => Some("(3) - Exclude"),
            4 => Some("(4) - Unused"),
            _ => None,
        },
        Named::SidSfType => match v {
            0 => Some("(0) - SID is disabled"),
            1 => Some("(1) - Other"),
            2 => Some("(2) - Legacy (SC-QAM Ch)"),
            3 => Some("(3) - Segment-header-on"),
            4 => Some("(4) - Segment-header-off"),
            _ => None,
        },
        Named::RpdConnectionStatusType => match v {
            1 => Some("(1) - Inactive"),
            2 => Some("(2) - Connecting"),
            3 => Some("(3) - Connected"),
            4 => Some("(4) - ReConnecting"),
            _ => None,
        },
        Named::ResponseType => match v {
            0 => Some("(0) - noAction"),
            1 => Some("(1) - Accept"),
            2 => Some("(2) - Reject"),
            _ => None,
        },
        Named::RpdGcpBackupCoreStatusType => match v {
            1 => Some("(1) - WaitForCoreMode"),
            2 => Some("(2) - Active"),
            3 => Some("(3) - Backup"),
            4 => Some("(4) - CoreNotActing"),
            5 => Some("(5) - Handover"),
            _ => None,
        },
        Named::OperationalStatusType => match v {
            1 => Some("(1) - up"),
            2 => Some("(2) - down"),
            _ => None,
        },
        Named::RpdResetType => match v {
            1 => Some("(1) - softReset"),
            2 => Some("(2) - hardReset"),
            3 => Some("(3) - nvReset"),
            4 => Some("(4) - factoryReset"),
            _ => None,
        },
        Named::FileControlType => match v {
            1 => Some("(1) - other"),
            2 => Some("(2) - upload"),
            3 => Some("(3) - cancelUpload"),
            4 => Some("(4) - deleteFile"),
            _ => None,
        },
        Named::UscStatusType => match v {
            1 => Some("(1) - other"),
            2 => Some("(2) - inactive"),
            3 => Some("(3) - busy"),
            4 => Some("(4) - sampleReady"),
            5 => Some("(5) - error"),
            6 => Some("(6) - resourceUnavailable"),
            7 => Some("(7) - sampleTruncated"),
            _ => None,
        },
        Named::ScCfgTrigModeType => match v {
            1 => Some("(1) - other"),
            2 => Some("(2) - freeRunning"),
            3 => Some("(3) - miniSlotCount"),
            4 => Some("(4) - sid"),
            5 => Some("(5) - no used"),
            6 => Some("(6) - quietProbeSymbol"),
            7 => Some("(7) - burstluc"),
            8 => Some("(7) - activeProveSymbol"),
            9 => Some("(7) - activeProbeSymbol"),
            _ => None,
        },
        Named::ScCfgTrigIucType => match v {
            1 => Some("(1) - other"),
            2 => Some("(2) - luc1"),
            3 => Some("(3) - luc2"),
            4 => Some("(4) - luc3"),
            5 => Some("(5) - luc4"),
            6 => Some("(6) - luc5"),
            7 => Some("(7) - luc6"),
            8 => Some("(8) - luc9"),
            9 => Some("(9) - luc10"),
            10 => Some("(10) - luc11"),
            11 => Some("(11) - luc12"),
            12 => Some("(12) - luc13"),
            _ => None,
        },
    }
}

} // verus!
