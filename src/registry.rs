use vstd::prelude::*;

use crate::labels::Named;

verus! {

/// Where a record stands: the same type code means different fields under different parents.
#[derive(Debug, Clone, Copy, PartialEq, Eq, Structural)]
pub enum Ctx {
    Sequences,
    Root,
    RfChannelSelector,
    RfPortSelector,
    RfChannel,
    RfChannelRfChannelSelector,
    RfChannelRfPortSelector,
    RfChannelDsOob55d1,
    RfChannelUsOob55d1,
    StaticPwStatus,
    StaticPwStatusCommonStaticPwStatus,
    UsOfdmaInitialRangingIuc,
    UsOfdmaFineRangingIuc,
    UsOfdmaDataIuc,
    UsOfdmaSubcarrierCfgState,
    DsRfPortPerf,
    DsScQamChannelPerf,
    DsOob551Perf,
    DsOob552Perf,
    NdfPerf,
    UsRfPortPerf,
    UsOob551Perf,
    UsOob552Perf,
    NdrPerf,
    NotificationType,
    SidQos,
    RpdConnectionStatus,
    CoreGcpConnectionResponse,
    RpdBackupCoreStatus,
    CoreGcpBackupResponse,
    GcpHandoverControl,
    QueryOfdmaRollOffPeriod,
    ResponseOfdmaRollOffPeriod,
    RpdGlobal,
    RpdGlobalEvCfg,
    RpdGlobalEvCfgEvControl,
    RpdGlobalGcpConnVerification,
    RpdGlobalIpConfig,
    RpdGlobalUepiControl,
    RpdGlobalLldpConfig,
    RpdCapabilities,
    RpdCapabilitiesRpdIdentification,
    RpdCapabilitiesLcceChannelReachability,
    RpdCapabilitiesPilotToneCapabilities,
    RpdCapabilitiesAllocDsChanResources,
    RpdCapabilitiesAllocUSChanlResources,
    RpdCapabilitiesDeviceLocation,
    RpdCapabilitiesRdtiCapabilities,
    RpdCapabilitiesUsPowerCapabilities,
    RpdCapabilitiesStaticPwCapabilities,
    RpdCapabilitiesDsCapabilities,
    RpdCapabilitiesResetCapabilities,
    RpdCapabilitiesSpectrumCaptureCapabilities,
    RpdCapabilitiesSpectrumCaptureCapabilitiesSacCapabilities,
    RpdCapabilitiesRfmCapabilities,
    RpdCapabilitiesRfmCapabilitiesNodeRfPortCapabilities,
    RpdCapabilitiesUpstreamCapabilities,
    RpdCapabilitiesPmtudCapabilities,
    StaticPwConfig,
    StaticPwConfigFwdStaticPwConfig,
    StaticPwConfigRetStaticPwConfig,
    StaticPwConfigCommonStaticPwConfig,
    StaticPwConfigCommonStaticPwConfigPwAssociation,
    StaticPwConfigCommonStaticPwConfigPwAssociationChannelSelector,
    CcapCoreIdentification,
    CcapCoreIdentificationCandidateBackupCoreTable,
    DsRfPort,
    DsRfPortDedicatedToneConfig,
    DsScQamChannelConfig,
    DsOfdmChannelConfig,
    DsOfdmChannelConfigDsOfdmSubcarrierType,
    DsOfdmProfile,
    DsOfdmProfileDsOfdmSubcarrierModulation,
    UsScQamChannelConfig,
    UsScQamChannelConfigIntervalUsageCode,
    UsOfdmaChannelConfig,
    UsOfdmaChannelConfigBwReqAggrControlOfdma,
    UsOfdmaChannelConfigFdxConfig,
    DsOfdmChannelPerf,
    DsOfdmChannelPerfDsOfdmProfilePerf,
    DsOfdmChannelPerfDsOfdmPlcPerf,
    UsScQamChannelPerf,
    UsScQamChannelPerfUsScChanLowIucStats,
    UsScQamChannelPerfUsScChanHiIucStats,
    UsScQamChannelPerfUcdRefreshStatusScqam,
    UsOfdmaChannelPerf,
    UsOfdmaChannelPerfUsOfdmaChanLowIucStats,
    UsOfdmaChannelPerfUsOfdmaChanHiIucStats,
    UsOfdmaChannelPerfUcdRefreshStatusOfdma,
    RpdState,
    RpdStateNetworkAuthenticationState,
    RpdStateAuxCoreState,
    DsOob55d1,
    UsOob55d1,
    UsRfPort,
    UsRfPortBwReqAggrControl,
    RfmConfig,
    RfmConfigDsPowerGainConfig,
    RfmConfigUsPowerGainConfig,
    RfmConfigDsTiltCfg,
    UsScQamProfileQuery,
    UsScQamProfileQueryQueryIucCode,
    UsScQamProfileResponse,
    UsScQamProfileResponseResponseIucCode,
}

/// A set of named answers for a one-byte value.
#[derive(Debug, Clone, Copy, PartialEq, Eq, Structural)]
pub enum Choice {
    RfChannelDsOob55d1RfMute,
    RfChannelDsOob55d1SfPowerAdjust,
    StaticPwStatusCommonStaticPwStatusDirection,
    NotificationTypeNotificationType,
    GcpHandoverControlGcpHandoverControlAction,
    GcpHandoverControlL2TPv3,
    RpdGlobalEvCfgNotifyEnable,
    RpdGlobalIpConfigIpStackControl,
    RpdGlobalIpConfigUseIcmpBasedPmtud,
    RpdGlobalUepiControlUepiControl,
    RpdGlobalLldpConfigLldpConfig,
    RpdCapabilitiesSupportsUdpEncap,
    RpdCapabilitiesSupportsFlowTags,
    RpdCapabilitiesSupportsFrequencyTilt,
    RpdCapabilitiesBufferDepthConfigurationSupport,
    RpdCapabilitiesSupportMultiSectionTimingMerReporting,
    RpdCapabilitiesDirectDsFlowQueueMapping,
    RpdCapabilitiesSupportsOpticalNodeRf,
    RpdCapabilitiesSupportsFlowTagIncrement,
    RpdCapabilitiesPilotToneCapabilitiesQamAsPilot,
    RpdCapabilitiesStaticPwCapabilitiesSupportsMptDepiPw,
    RpdCapabilitiesStaticPwCapabilitiesSupportsMpt55d1RetPw,
    RpdCapabilitiesStaticPwCapabilitiesSupportsPspNdfMcastPw,
    RpdCapabilitiesStaticPwCapabilitiesSupportsPspNdrPw,
    RpdCapabilitiesStaticPwCapabilitiesSupportsPspNdfUcastPw,
    RpdCapabilitiesStaticPwCapabilitiesSupportsPspPnmPw,
    RpdCapabilitiesStaticPwCapabilitiesSupportsPspSpecmanPw,
    RpdCapabilitiesResetCapabilitiesSoftResetSupported,
    RpdCapabilitiesResetCapabilitiesNvResetSupported,
    RpdCapabilitiesResetCapabilitiesFactoryResetSupported,
    RpdCapabilitiesSpectrumCaptureCapabilitiesSacCapabilitiesSupportsAveraging,
    RpdCapabilitiesSpectrumCaptureCapabilitiesSacCapabilitiesSupportsSpectrumQualification,
    RpdCapabilitiesSpectrumCaptureCapabilitiesSacCapabilitiesSupportedTrigChanTypes,
    RpdCapabilitiesSpectrumCaptureCapabilitiesSacCapabilitiesPwType,
    RpdCapabilitiesSpectrumCaptureCapabilitiesSacCapabilitiesSupportsScanningCapture,
    RpdCapabilitiesRfmCapabilitiesSupportsRfmManagement,
    RpdCapabilitiesRfmCapabilitiesSupportsDsCfgRfmGain,
    RpdCapabilitiesRfmCapabilitiesSupportsUsCfgRfmGain,
    RpdCapabilitiesRfmCapabilitiesSupportsRfmDsTiltConfig,
    RpdCapabilitiesPmtudCapabilitiesSupportsIcmpBasedPmtud,
    RpdCapabilitiesPmtudCapabilitiesSupportsPacketizationBasedPmtud,
    StaticPwConfigFwdStaticPwConfigIsUnicast,
    StaticPwConfigCommonStaticPwConfigEnableStatusNotification,
    CcapCoreIdentificationGcpBackupConnectionConfig,
    DsRfPortRfMute,
    DsRfPortDedicatedToneConfigRfMute,
    DsScQamChannelConfigRfMute,
    DsScQamChannelConfigSpectrumInversionEnabled,
    DsScQamChannelConfigBcastChanGroup,
    DsOfdmChannelConfigRfMute,
    DsOfdmChannelConfigSubcarrierSpacing,
    UsScQamChannelConfigEqualizationCoeffEnable,
    UsScQamChannelConfigIngressNoiseCancelEnable,
    UsScQamChannelConfigIntervalUsageCodeDifferentialEncoding,
    UsScQamChannelConfigIntervalUsageCodePreambleModType,
    UsScQamChannelConfigIntervalUsageCodeScrambler,
    UsScQamChannelConfigIntervalUsageCodeLasCodewordShortened,
    UsScQamChannelConfigIntervalUsageCodeByteInterleaverDepth,
    UsOfdmaChannelConfigEnableFlowTags,
    UsOfdmaChannelConfigFdxConfigEcEnable,
    UsScQamChannelPerfUcdRefreshStatusScqamUcdRefreshRequestScqam,
    UsOfdmaChannelPerfUcdRefreshStatusOfdmaUcdRefreshRequestOfdma,
    RpdStateLocalPtpSyncStatus,
    DsOob55d1RfMute,
    DsOob55d1SfRfMute,
}

/// A set of named flags in a bitmask value.
#[derive(Debug, Clone, Copy, PartialEq, Eq, Structural)]
pub enum Flags {
    RpdCapabilitiesBufferDepthMonitorAlertSupport,
    RpdCapabilitiesDsCapabilitiesDsScqamInterleaverSupport,
    RpdCapabilitiesSpectrumCaptureCapabilitiesSacCapabilitiesSupportedTriggerModes,
    RpdCapabilitiesSpectrumCaptureCapabilitiesSacCapabilitiesSupportedOutputFormats,
    RpdCapabilitiesSpectrumCaptureCapabilitiesSacCapabilitiesSupportedWindowFormats,
    StaticPwConfigCommonStaticPwConfigCircuitStatus,
    CcapCoreIdentificationCoreFunction,
}

/// How the value of a leaf field is read and written out.
#[derive(Debug, Clone, Copy, PartialEq, Eq, Structural)]
pub enum Format {
    /// An unsigned byte.
    U8,
    /// A big-endian 16-bit unsigned integer.
    U16,
    /// A big-endian 32-bit unsigned integer.
    U32,
    /// A big-endian 64-bit unsigned integer.
    U64,
    /// Raw bytes in hexadecimal.
    Hex,
    /// NUL-padded text.
    Text,
    /// A six-byte MAC address.
    Mac,
    /// An IPv4 or IPv6 address.
    Ip,
    /// A date in one of its two encodings.
    Date,
    /// A field that is only named, its value being of no interest.
    Note,
    /// A byte looked up in a named enumeration.
    NamedU8(Named),
    /// A 16-bit value looked up in a named enumeration.
    NamedU16(Named),
    /// A byte with a small set of described answers.
    Choice(Choice),
    /// A bitmask whose flags are written out one per line.
    Flags(Flags),
}

/// What a known type code is at a given place.
#[derive(Debug, Clone, Copy, PartialEq, Eq, Structural)]
pub enum Kind {
    /// A container: its value is a sequence of records read in the given context.
    Node(Ctx),
    /// A scalar value.
    Leaf(Format),
}

/// The field that type code `code` names in context `ctx`, with its label; `None` where the code is unknown there.
#[verifier::opaque]
pub open spec fn field_spec(ctx: Ctx, code: u8) -> Option<(Kind, Seq<char>)> {
    match ctx {
        Ctx::Sequences => sequences_spec(code),
        Ctx::Root => root_spec(code),
        Ctx::RfChannelSelector => rf_channel_selector_spec(code),
        Ctx::RfPortSelector => rf_port_selector_spec(code),
        Ctx::RfChannel => rf_channel_spec(code),
        Ctx::RfChannelRfChannelSelector => rf_channel_rf_channel_selector_spec(code),
        Ctx::RfChannelRfPortSelector => rf_channel_rf_port_selector_spec(code),
        Ctx::RfChannelDsOob55d1 => rf_channel_ds_oob55d1_spec(code),
        Ctx::RfChannelUsOob55d1 => rf_channel_us_oob55d1_spec(code),
        Ctx::StaticPwStatus => static_pw_status_spec(code),
        Ctx::StaticPwStatusCommonStaticPwStatus => static_pw_status_common_static_pw_status_spec(code),
        Ctx::UsOfdmaInitialRangingIuc => us_ofdma_initial_ranging_iuc_spec(code),
        Ctx::UsOfdmaFineRangingIuc => us_ofdma_fine_ranging_iuc_spec(code),
        Ctx::UsOfdmaDataIuc => us_ofdma_data_iuc_spec(code),
        Ctx::UsOfdmaSubcarrierCfgState => us_ofdma_subcarrier_cfg_state_spec(code),
        Ctx::DsRfPortPerf => ds_rf_port_perf_spec(code),
        Ctx::DsScQamChannelPerf => ds_sc_qam_channel_perf_spec(code),
        Ctx::DsOob551Perf => ds_oob551_perf_spec(code),
        Ctx::DsOob552Perf => ds_oob552_perf_spec(code),
        Ctx::NdfPerf => ndf_perf_spec(code),
        Ctx::UsRfPortPerf => us_rf_port_perf_spec(code),
        Ctx::UsOob551Perf => us_oob551_perf_spec(code),
        Ctx::UsOob552Perf => us_oob552_perf_spec(code),
        Ctx::NdrPerf => ndr_perf_spec(code),
        Ctx::NotificationType => notification_type_spec(code),
        Ctx::SidQos => sid_qos_spec(code),
        Ctx::RpdConnectionStatus => rpd_connection_status_spec(code),
        Ctx::CoreGcpConnectionResponse => core_gcp_connection_response_spec(code),
        Ctx::RpdBackupCoreStatus => rpd_backup_core_status_spec(code),
        Ctx::CoreGcpBackupResponse => core_gcp_backup_response_spec(code),
        Ctx::GcpHandoverControl => gcp_handover_control_spec(code),
        Ctx::QueryOfdmaRollOffPeriod => query_ofdma_roll_off_period_spec(code),
        Ctx::ResponseOfdmaRollOffPeriod => response_ofdma_roll_off_period_spec(code),
        Ctx::RpdGlobal => rpd_global_spec(code),
        Ctx::RpdGlobalEvCfg => rpd_global_ev_cfg_spec(code),
        Ctx::RpdGlobalEvCfgEvControl => rpd_global_ev_cfg_ev_control_spec(code),
        Ctx::RpdGlobalGcpConnVerification => rpd_global_gcp_conn_verification_spec(code),
        Ctx::RpdGlobalIpConfig => rpd_global_ip_config_spec(code),
        Ctx::RpdGlobalUepiControl => rpd_global_uepi_control_spec(code),
        Ctx::RpdGlobalLldpConfig => rpd_global_lldp_config_spec(code),
        Ctx::RpdCapabilities => rpd_capabilities_spec(code),
        Ctx::RpdCapabilitiesRpdIdentification => rpd_capabilities_rpd_identification_spec(code),
        Ctx::RpdCapabilitiesLcceChannelReachability => rpd_capabilities_lcce_channel_reachability_spec(code),
        Ctx::RpdCapabilitiesPilotToneCapabilities => rpd_capabilities_pilot_tone_capabilities_spec(code),
        Ctx::RpdCapabilitiesAllocDsChanResources => rpd_capabilities_alloc_ds_chan_resources_spec(code),
        Ctx::RpdCapabilitiesAllocUSChanlResources => rpd_capabilities_alloc_u_s_chanl_resources_spec(code),
        Ctx::RpdCapabilitiesDeviceLocation => rpd_capabilities_device_location_spec(code),
        Ctx::RpdCapabilitiesRdtiCapabilities => rpd_capabilities_rdti_capabilities_spec(code),
        Ctx::RpdCapabilitiesUsPowerCapabilities => rpd_capabilities_us_power_capabilities_spec(code),
        Ctx::RpdCapabilitiesStaticPwCapabilities => rpd_capabilities_static_pw_capabilities_spec(code),
        Ctx::RpdCapabilitiesDsCapabilities => rpd_capabilities_ds_capabilities_spec(code),
        Ctx::RpdCapabilitiesResetCapabilities => rpd_capabilities_reset_capabilities_spec(code),
        Ctx::RpdCapabilitiesSpectrumCaptureCapabilities => rpd_capabilities_spectrum_capture_capabilities_spec(code),
        Ctx::RpdCapabilitiesSpectrumCaptureCapabilitiesSacCapabilities => rpd_capabilities_spectrum_capture_capabilities_sac_capabilities_spec(code),
        Ctx::RpdCapabilitiesRfmCapabilities => rpd_capabilities_rfm_capabilities_spec(code),
        Ctx::RpdCapabilitiesRfmCapabilitiesNodeRfPortCapabilities => rpd_capabilities_rfm_capabilities_node_rf_port_capabilities_spec(code),
        Ctx::RpdCapabilitiesUpstreamCapabilities => rpd_capabilities_upstream_capabilities_spec(code),
        Ctx::RpdCapabilitiesPmtudCapabilities => rpd_capabilities_pmtud_capabilities_spec(code),
        Ctx::StaticPwConfig => static_pw_config_spec(code),
        Ctx::StaticPwConfigFwdStaticPwConfig => static_pw_config_fwd_static_pw_config_spec(code),
        Ctx::StaticPwConfigRetStaticPwConfig => static_pw_config_ret_static_pw_config_spec(code),
        Ctx::StaticPwConfigCommonStaticPwConfig => static_pw_config_common_static_pw_config_spec(code),
        Ctx::StaticPwConfigCommonStaticPwConfigPwAssociation => static_pw_config_common_static_pw_config_pw_association_spec(code),
        Ctx::StaticPwConfigCommonStaticPwConfigPwAssociationChannelSelector => static_pw_config_common_static_pw_config_pw_association_channel_selector_spec(code),
        Ctx::CcapCoreIdentification => ccap_core_identification_spec(code),
        Ctx::CcapCoreIdentificationCandidateBackupCoreTable => ccap_core_identification_candidate_backup_core_table_spec(code),
        Ctx::DsRfPort => ds_rf_port_spec(code),
        Ctx::DsRfPortDedicatedToneConfig => ds_rf_port_dedicated_tone_config_spec(code),
        Ctx::DsScQamChannelConfig => ds_sc_qam_channel_config_spec(code),
        Ctx::DsOfdmChannelConfig => ds_ofdm_channel_config_spec(code),
        Ctx::DsOfdmChannelConfigDsOfdmSubcarrierType => ds_ofdm_channel_config_ds_ofdm_subcarrier_type_spec(code),
        Ctx::DsOfdmProfile => ds_ofdm_profile_spec(code),
        Ctx::DsOfdmProfileDsOfdmSubcarrierModulation => ds_ofdm_profile_ds_ofdm_subcarrier_modulation_spec(code),
        Ctx::UsScQamChannelConfig => us_sc_qam_channel_config_spec(code),
        Ctx::UsScQamChannelConfigIntervalUsageCode => us_sc_qam_channel_config_interval_usage_code_spec(code),
        Ctx::UsOfdmaChannelConfig => us_ofdma_channel_config_spec(code),
        Ctx::UsOfdmaChannelConfigBwReqAggrControlOfdma => us_ofdma_channel_config_bw_req_aggr_control_ofdma_spec(code),
        Ctx::UsOfdmaChannelConfigFdxConfig => us_ofdma_channel_config_fdx_config_spec(code),
        Ctx::DsOfdmChannelPerf => ds_ofdm_channel_perf_spec(code),
        Ctx::DsOfdmChannelPerfDsOfdmProfilePerf => ds_ofdm_channel_perf_ds_ofdm_profile_perf_spec(code),
        Ctx::DsOfdmChannelPerfDsOfdmPlcPerf => ds_ofdm_channel_perf_ds_ofdm_plc_perf_spec(code),
        Ctx::UsScQamChannelPerf => us_sc_qam_channel_perf_spec(code),
        Ctx::UsScQamChannelPerfUsScChanLowIucStats => us_sc_qam_channel_perf_us_sc_chan_low_iuc_stats_spec(code),
        Ctx::UsScQamChannelPerfUsScChanHiIucStats => us_sc_qam_channel_perf_us_sc_chan_hi_iuc_stats_spec(code),
        Ctx::UsScQamChannelPerfUcdRefreshStatusScqam => us_sc_qam_channel_perf_ucd_refresh_status_scqam_spec(code),
        Ctx::UsOfdmaChannelPerf => us_ofdma_channel_perf_spec(code),
        Ctx::UsOfdmaChannelPerfUsOfdmaChanLowIucStats => us_ofdma_channel_perf_us_ofdma_chan_low_iuc_stats_spec(code),
        Ctx::UsOfdmaChannelPerfUsOfdmaChanHiIucStats => us_ofdma_channel_perf_us_ofdma_chan_hi_iuc_stats_spec(code),
        Ctx::UsOfdmaChannelPerfUcdRefreshStatusOfdma => us_ofdma_channel_perf_ucd_refresh_status_ofdma_spec(code),
        Ctx::RpdState => rpd_state_spec(code),
        Ctx::RpdStateNetworkAuthenticationState => rpd_state_network_authentication_state_spec(code),
        Ctx::RpdStateAuxCoreState => rpd_state_aux_core_state_spec(code),
        Ctx::DsOob55d1 => ds_oob55d1_spec(code),
        Ctx::UsOob55d1 => us_oob55d1_spec(code),
        Ctx::UsRfPort => us_rf_port_spec(code),
        Ctx::UsRfPortBwReqAggrControl => us_rf_port_bw_req_aggr_control_spec(code),
        Ctx::RfmConfig => rfm_config_spec(code),
        Ctx::RfmConfigDsPowerGainConfig => rfm_config_ds_power_gain_config_spec(code),
        Ctx::RfmConfigUsPowerGainConfig => rfm_config_us_power_gain_config_spec(code),
        Ctx::RfmConfigDsTiltCfg => rfm_config_ds_tilt_cfg_spec(code),
        Ctx::UsScQamProfileQuery => us_sc_qam_profile_query_spec(code),
        Ctx::UsScQamProfileQueryQueryIucCode => us_sc_qam_profile_query_query_iuc_code_spec(code),
        Ctx::UsScQamProfileResponse => us_sc_qam_profile_response_spec(code),
        Ctx::UsScQamProfileResponseResponseIucCode => us_sc_qam_profile_response_response_iuc_code_spec(code),
    }
}

/// Looks up the field that type code `code` names in context `ctx`.
pub fn field(ctx: Ctx, code: u8) -> (r: Option<(Kind, &'static str)>)
    ensures
        match (r, field_spec(ctx, code)) {
            (Some((k, l)), Some((ks, ls))) => k == ks && l@ == ls,
            (None, None) => true,
            _ => false,
        },
{
    reveal(field_spec);
    match ctx {
        Ctx::Sequences => sequences(code),
        Ctx::Root => root(code),
        Ctx::RfChannelSelector => rf_channel_selector(code),
        Ctx::RfPortSelector => rf_port_selector(code),
        Ctx::RfChannel => rf_channel(code),
        Ctx::RfChannelRfChannelSelector => rf_channel_rf_channel_selector(code),
        Ctx::RfChannelRfPortSelector => rf_channel_rf_port_selector(code),
        Ctx::RfChannelDsOob55d1 => rf_channel_ds_oob55d1(code),
        Ctx::RfChannelUsOob55d1 => rf_channel_us_oob55d1(code),
        Ctx::StaticPwStatus => static_pw_status(code),
        Ctx::StaticPwStatusCommonStaticPwStatus => static_pw_status_common_static_pw_status(code),
        Ctx::UsOfdmaInitialRangingIuc => us_ofdma_initial_ranging_iuc(code),
        Ctx::UsOfdmaFineRangingIuc => us_ofdma_fine_ranging_iuc(code),
        Ctx::UsOfdmaDataIuc => us_ofdma_data_iuc(code),
        Ctx::UsOfdmaSubcarrierCfgState => us_ofdma_subcarrier_cfg_state(code),
        Ctx::DsRfPortPerf => ds_rf_port_perf(code),
        Ctx::DsScQamChannelPerf => ds_sc_qam_channel_perf(code),
        Ctx::DsOob551Perf => ds_oob551_perf(code),
        Ctx::DsOob552Perf => ds_oob552_perf(code),
        Ctx::NdfPerf => ndf_perf(code),
        Ctx::UsRfPortPerf => us_rf_port_perf(code),
        Ctx::UsOob551Perf => us_oob551_perf(code),
        Ctx::UsOob552Perf => us_oob552_perf(code),
        Ctx::NdrPerf => ndr_perf(code),
        Ctx::NotificationType => notification_type(code),
        Ctx::SidQos => sid_qos(code),
        Ctx::RpdConnectionStatus => rpd_connection_status(code),
        Ctx::CoreGcpConnectionResponse => core_gcp_connection_response(code),
        Ctx::RpdBackupCoreStatus => rpd_backup_core_status(code),
        Ctx::CoreGcpBackupResponse => core_gcp_backup_response(code),
        Ctx::GcpHandoverControl => gcp_handover_control(code),
        Ctx::QueryOfdmaRollOffPeriod => query_ofdma_roll_off_period(code),
        Ctx::ResponseOfdmaRollOffPeriod => response_ofdma_roll_off_period(code),
        Ctx::RpdGlobal => rpd_global(code),
        Ctx::RpdGlobalEvCfg => rpd_global_ev_cfg(code),
        Ctx::RpdGlobalEvCfgEvControl => rpd_global_ev_cfg_ev_control(code),
        Ctx::RpdGlobalGcpConnVerification => rpd_global_gcp_conn_verification(code),
        Ctx::RpdGlobalIpConfig => rpd_global_ip_config(code),
        Ctx::RpdGlobalUepiControl => rpd_global_uepi_control(code),
        Ctx::RpdGlobalLldpConfig => rpd_global_lldp_config(code),
        Ctx::RpdCapabilities => rpd_capabilities(code),
        Ctx::RpdCapabilitiesRpdIdentification => rpd_capabilities_rpd_identification(code),
        Ctx::RpdCapabilitiesLcceChannelReachability => rpd_capabilities_lcce_channel_reachability(code),
        Ctx::RpdCapabilitiesPilotToneCapabilities => rpd_capabilities_pilot_tone_capabilities(code),
        Ctx::RpdCapabilitiesAllocDsChanResources => rpd_capabilities_alloc_ds_chan_resources(code),
        Ctx::RpdCapabilitiesAllocUSChanlResources => rpd_capabilities_alloc_u_s_chanl_resources(code),
        Ctx::RpdCapabilitiesDeviceLocation => rpd_capabilities_device_location(code),
        Ctx::RpdCapabilitiesRdtiCapabilities => rpd_capabilities_rdti_capabilities(code),
        Ctx::RpdCapabilitiesUsPowerCapabilities => rpd_capabilities_us_power_capabilities(code),
        Ctx::RpdCapabilitiesStaticPwCapabilities => rpd_capabilities_static_pw_capabilities(code),
        Ctx::RpdCapabilitiesDsCapabilities => rpd_capabilities_ds_capabilities(code),
        Ctx::RpdCapabilitiesResetCapabilities => rpd_capabilities_reset_capabilities(code),
        Ctx::RpdCapabilitiesSpectrumCaptureCapabilities => rpd_capabilities_spectrum_capture_capabilities(code),
        Ctx::RpdCapabilitiesSpectrumCaptureCapabilitiesSacCapabilities => rpd_capabilities_spectrum_capture_capabilities_sac_capabilities(code),
        Ctx::RpdCapabilitiesRfmCapabilities => rpd_capabilities_rfm_capabilities(code),
        Ctx::RpdCapabilitiesRfmCapabilitiesNodeRfPortCapabilities => rpd_capabilities_rfm_capabilities_node_rf_port_capabilities(code),
        Ctx::RpdCapabilitiesUpstreamCapabilities => rpd_capabilities_upstream_capabilities(code),
        Ctx::RpdCapabilitiesPmtudCapabilities => rpd_capabilities_pmtud_capabilities(code),
        Ctx::StaticPwConfig => static_pw_config(code),
        Ctx::StaticPwConfigFwdStaticPwConfig => static_pw_config_fwd_static_pw_config(code),
        Ctx::StaticPwConfigRetStaticPwConfig => static_pw_config_ret_static_pw_config(code),
        Ctx::StaticPwConfigCommonStaticPwConfig => static_pw_config_common_static_pw_config(code),
        Ctx::StaticPwConfigCommonStaticPwConfigPwAssociation => static_pw_config_common_static_pw_config_pw_association(code),
        Ctx::StaticPwConfigCommonStaticPwConfigPwAssociationChannelSelector => static_pw_config_common_static_pw_config_pw_association_channel_selector(code),
        Ctx::CcapCoreIdentification => ccap_core_identification(code),
        Ctx::CcapCoreIdentificationCandidateBackupCoreTable => ccap_core_identification_candidate_backup_core_table(code),
        Ctx::DsRfPort => ds_rf_port(code),
        Ctx::DsRfPortDedicatedToneConfig => ds_rf_port_dedicated_tone_config(code),
        Ctx::DsScQamChannelConfig => ds_sc_qam_channel_config(code),
        Ctx::DsOfdmChannelConfig => ds_ofdm_channel_config(code),
        Ctx::DsOfdmChannelConfigDsOfdmSubcarrierType => ds_ofdm_channel_config_ds_ofdm_subcarrier_type(code),
        Ctx::DsOfdmProfile => ds_ofdm_profile(code),
        Ctx::DsOfdmProfileDsOfdmSubcarrierModulation => ds_ofdm_profile_ds_ofdm_subcarrier_modulation(code),
        Ctx::UsScQamChannelConfig => us_sc_qam_channel_config(code),
        Ctx::UsScQamChannelConfigIntervalUsageCode => us_sc_qam_channel_config_interval_usage_code(code),
        Ctx::UsOfdmaChannelConfig => us_ofdma_channel_config(code),
        Ctx::UsOfdmaChannelConfigBwReqAggrControlOfdma => us_ofdma_channel_config_bw_req_aggr_control_ofdma(code),
        Ctx::UsOfdmaChannelConfigFdxConfig => us_ofdma_channel_config_fdx_config(code),
        Ctx::DsOfdmChannelPerf => ds_ofdm_channel_perf(code),
        Ctx::DsOfdmChannelPerfDsOfdmProfilePerf => ds_ofdm_channel_perf_ds_ofdm_profile_perf(code),
        Ctx::DsOfdmChannelPerfDsOfdmPlcPerf => ds_ofdm_channel_perf_ds_ofdm_plc_perf(code),
        Ctx::UsScQamChannelPerf => us_sc_qam_channel_perf(code),
        Ctx::UsScQamChannelPerfUsScChanLowIucStats => us_sc_qam_channel_perf_us_sc_chan_low_iuc_stats(code),
        Ctx::UsScQamChannelPerfUsScChanHiIucStats => us_sc_qam_channel_perf_us_sc_chan_hi_iuc_stats(code),
        Ctx::UsScQamChannelPerfUcdRefreshStatusScqam => us_sc_qam_channel_perf_ucd_refresh_status_scqam(code),
        Ctx::UsOfdmaChannelPerf => us_ofdma_channel_perf(code),
        Ctx::UsOfdmaChannelPerfUsOfdmaChanLowIucStats => us_ofdma_channel_perf_us_ofdma_chan_low_iuc_stats(code),
        Ctx::UsOfdmaChannelPerfUsOfdmaChanHiIucStats => us_ofdma_channel_perf_us_ofdma_chan_hi_iuc_stats(code),
        Ctx::UsOfdmaChannelPerfUcdRefreshStatusOfdma => us_ofdma_channel_perf_ucd_refresh_status_ofdma(code),
        Ctx::RpdState => rpd_state(code),
        Ctx::RpdStateNetworkAuthenticationState => rpd_state_network_authentication_state(code),
        Ctx::RpdStateAuxCoreState => rpd_state_aux_core_state(code),
        Ctx::DsOob55d1 => ds_oob55d1(code),
        Ctx::UsOob55d1 => us_oob55d1(code),
        Ctx::UsRfPort => us_rf_port(code),
        Ctx::UsRfPortBwReqAggrControl => us_rf_port_bw_req_aggr_control(code),
        Ctx::RfmConfig => rfm_config(code),
        Ctx::RfmConfigDsPowerGainConfig => rfm_config_ds_power_gain_config(code),
        Ctx::RfmConfigUsPowerGainConfig => rfm_config_us_power_gain_config(code),
        Ctx::RfmConfigDsTiltCfg => rfm_config_ds_tilt_cfg(code),
        Ctx::UsScQamProfileQuery => us_sc_qam_profile_query(code),
        Ctx::UsScQamProfileQueryQueryIucCode => us_sc_qam_profile_query_query_iuc_code(code),
        Ctx::UsScQamProfileResponse => us_sc_qam_profile_response(code),
        Ctx::UsScQamProfileResponseResponseIucCode => us_sc_qam_profile_response_response_iuc_code(code),
    }
}

/// The fields of the Sequences context.
pub open spec fn sequences_spec(code: u8) -> Option<(Kind, Seq<char>)> {
    match code {
        _ => Some((Kind::Node(Ctx::Root), "Sequence"@)),
    }
}

fn sequences(code: u8) -> (r: Option<(Kind, &'static str)>)
    ensures
        match (r, sequences_spec(code)) {
            (Some((k, l)), Some((ks, ls))) => k == ks && l@ == ls,
            (None, None) => true,
            _ => false,
        },
{
    match code {
        _ => Some((Kind::Node(Ctx::Root), "Sequence")),
    }
}

/// The fields of the Root context.
pub open spec fn root_spec(code: u8) -> Option<(Kind, Seq<char>)> {
    match code {
        10 => Some((Kind::Leaf(Format::U16), "SequenceNumber"@)),
        11 => Some((Kind::Leaf(Format::NamedU8(Named::Operation)), "Operation"@)),
        12 => Some((Kind::Node(Ctx::RfChannelSelector), "RfChannelSelector"@)),
        13 => Some((Kind::Node(Ctx::RfPortSelector), "RfPortSelector"@)),
        14 => Some((Kind::Leaf(Format::U8), "EnetPortIndex"@)),
        15 => Some((Kind::Node(Ctx::RpdGlobal), "RpdGlobal"@)),
        16 => Some((Kind::Node(Ctx::RfChannel), "RfChannel"@)),
        19 => Some((Kind::Leaf(Format::NamedU8(Named::ResponseCode)), "ResponseCode"@)),
        50 => Some((Kind::Node(Ctx::RpdCapabilities), "RpdCapabilities"@)),
        58 => Some((Kind::Node(Ctx::StaticPwConfig), "StaticPwConfig"@)),
        59 => Some((Kind::Node(Ctx::StaticPwStatus), "StaticPwStatus"@)),
        60 => Some((Kind::Node(Ctx::CcapCoreIdentification), "CcapCoreIdentification"@)),
        61 => Some((Kind::Node(Ctx::DsRfPort), "DsRfPort"@)),
        62 => Some((Kind::Node(Ctx::DsScQamChannelConfig), "DsScQamChannelConfig"@)),
        63 => Some((Kind::Node(Ctx::DsOfdmChannelConfig), "DsOfdmChannelConfig"@)),
        64 => Some((Kind::Node(Ctx::DsOfdmProfile), "DsOfdmProfile"@)),
        65 => Some((Kind::Node(Ctx::UsScQamChannelConfig), "UsScQamChannelConfig"@)),
        66 => Some((Kind::Node(Ctx::UsOfdmaChannelConfig), "UsOfdmaChannelConfig"@)),
        67 => Some((Kind::Node(Ctx::UsOfdmaInitialRangingIuc), "UsOfdmaInitialRangingIuc"@)),
        68 => Some((Kind::Node(Ctx::UsOfdmaFineRangingIuc), "UsOfdmaFineRangingIuc"@)),
        69 => Some((Kind::Node(Ctx::UsOfdmaDataIuc), "UsOfdmaDataIuc"@)),
        70 => Some((Kind::Node(Ctx::UsOfdmaSubcarrierCfgState), "UsOfdmaSubcarrierCfgState"@)),
        71 => Some((Kind::Node(Ctx::DsRfPortPerf), "DsRfPortPerf"@)),
        72 => Some((Kind::Node(Ctx::DsScQamChannelPerf), "DsScQamChannelPerf"@)),
        73 => Some((Kind::Node(Ctx::DsOfdmChannelPerf), "DsOfdmChannelPerf"@)),
        74 => Some((Kind::Node(Ctx::DsOob551Perf), "DsOob551Perf"@)),
        75 => Some((Kind::Node(Ctx::DsOob552Perf), "DsOob552Perf"@)),
        76 => Some((Kind::Node(Ctx::NdfPerf), "NdfPerf"@)),
        77 => Some((Kind::Node(Ctx::UsRfPortPerf), "UsRfPortPerf"@)),
        78 => Some((Kind::Node(Ctx::UsScQamChannelPerf), "UsScQamChannelPerf"@)),
        79 => Some((Kind::Node(Ctx::UsOfdmaChannelPerf), "UsOfdmaChannelPerf"@)),
        80 => Some((Kind::Node(Ctx::UsOob551Perf), "UsOob551Perf"@)),
        81 => Some((Kind::Node(Ctx::UsOob552Perf), "UsOob552Perf"@)),
        82 => Some((Kind::Node(Ctx::NdrPerf), "NdrPerf"@)),
        86 => Some((Kind::Node(Ctx::NotificationType), "NotificationType"@)),
        87 => Some((Kind::Node(Ctx::RpdState), "RpdState"@)),
        91 => Some((Kind::Node(Ctx::DsOob55d1), "DsOob55d1"@)),
        92 => Some((Kind::Node(Ctx::UsOob55d1), "UsOob55d1"@)),
        96 => Some((Kind::Node(Ctx::SidQos), "SidQos"@)),
        98 => Some((Kind::Node(Ctx::UsRfPort), "UsRfPort"@)),
        105 => Some((Kind::Node(Ctx::RpdConnectionStatus), "RpdConnectionStatus"@)),
        106 => Some((Kind::Node(Ctx::CoreGcpConnectionResponse), "CoreGcpConnectionResponse"@)),
        107 => Some((Kind::Node(Ctx::RpdBackupCoreStatus), "RpdBackupCoreStatus"@)),
        108 => Some((Kind::Node(Ctx::CoreGcpBackupResponse), "CoreGcpBackupResponse"@)),
        109 => Some((Kind::Node(Ctx::GcpHandoverControl), "GcpHandoverControl"@)),
        160 => Some((Kind::Node(Ctx::RfmConfig), "RfmConfig"@)),
        150 => Some((Kind::Node(Ctx::UsScQamProfileQuery), "UsScQamProfileQuery"@)),
        151 => Some((Kind::Node(Ctx::UsScQamProfileResponse), "UsScQamProfileResponse"@)),
        152 => Some((Kind::Node(Ctx::QueryOfdmaRollOffPeriod), "QueryOfdmaRollOffPeriod"@)),
        153 => Some((Kind::Node(Ctx::ResponseOfdmaRollOffPeriod), "ResponseOfdmaRollOffPeriod"@)),
        _ => None,
    }
}

fn root(code: u8) -> (r: Option<(Kind, &'static str)>)
    ensures
        match (r, root_spec(code)) {
            (Some((k, l)), Some((ks, ls))) => k == ks && l@ == ls,
            (None, None) => true,
            _ => false,
        },
{
    match code {
        10 => Some((Kind::Leaf(Format::U16), "SequenceNumber")),
        11 => Some((Kind::Leaf(Format::NamedU8(Named::Operation)), "Operation")),
        12 => Some((Kind::Node(Ctx::RfChannelSelector), "RfChannelSelector")),
        13 => Some((Kind::Node(Ctx::RfPortSelector), "RfPortSelector")),
        14 => Some((Kind::Leaf(Format::U8), "EnetPortIndex")),
        15 => Some((Kind::Node(Ctx::RpdGlobal), "RpdGlobal")),
        16 => Some((Kind::Node(Ctx::RfChannel), "RfChannel")),
        19 => Some((Kind::Leaf(Format::NamedU8(Named::ResponseCode)), "ResponseCode")),
        50 => Some((Kind::Node(Ctx::RpdCapabilities), "RpdCapabilities")),
        58 => Some((Kind::Node(Ctx::StaticPwConfig), "StaticPwConfig")),
        59 => Some((Kind::Node(Ctx::StaticPwStatus), "StaticPwStatus")),
        60 => Some((Kind::Node(Ctx::CcapCoreIdentification), "CcapCoreIdentification")),
        61 => Some((Kind::Node(Ctx::DsRfPort), "DsRfPort")),
        62 => Some((Kind::Node(Ctx::DsScQamChannelConfig), "DsScQamChannelConfig")),
        63 => Some((Kind::Node(Ctx::DsOfdmChannelConfig), "DsOfdmChannelConfig")),
        64 => Some((Kind::Node(Ctx::DsOfdmProfile), "DsOfdmProfile")),
        65 => Some((Kind::Node(Ctx::UsScQamChannelConfig), "UsScQamChannelConfig")),
        66 => Some((Kind::Node(Ctx::UsOfdmaChannelConfig), "UsOfdmaChannelConfig")),
        67 => Some((Kind::Node(Ctx::UsOfdmaInitialRangingIuc), "UsOfdmaInitialRangingIuc")),
        68 => Some((Kind::Node(Ctx::UsOfdmaFineRangingIuc), "UsOfdmaFineRangingIuc")),
        69 => Some((Kind::Node(Ctx::UsOfdmaDataIuc), "UsOfdmaDataIuc")),
        70 => Some((Kind::Node(Ctx::UsOfdmaSubcarrierCfgState), "UsOfdmaSubcarrierCfgState")),
        71 => Some((Kind::Node(Ctx::DsRfPortPerf), "DsRfPortPerf")),
        72 => Some((Kind::Node(Ctx::DsScQamChannelPerf), "DsScQamChannelPerf")),
        73 => Some((Kind::Node(Ctx::DsOfdmChannelPerf), "DsOfdmChannelPerf")),
        74 => Some((Kind::Node(Ctx::DsOob551Perf), "DsOob551Perf")),
        75 => Some((Kind::Node(Ctx::DsOob552Perf), "DsOob552Perf")),
        76 => Some((Kind::Node(Ctx::NdfPerf), "NdfPerf")),
        77 => Some((Kind::Node(Ctx::UsRfPortPerf), "UsRfPortPerf")),
        78 => Some((Kind::Node(Ctx::UsScQamChannelPerf), "UsScQamChannelPerf")),
        79 => Some((Kind::Node(Ctx::UsOfdmaChannelPerf), "UsOfdmaChannelPerf")),
        80 => Some((Kind::Node(Ctx::UsOob551Perf), "UsOob551Perf")),
        81 => Some((Kind::Node(Ctx::UsOob552Perf), "UsOob552Perf")),
        82 => Some((Kind::Node(Ctx::NdrPerf), "NdrPerf")),
        86 => Some((Kind::Node(Ctx::NotificationType), "NotificationType")),
        87 => Some((Kind::Node(Ctx::RpdState), "RpdState")),
        91 => Some((Kind::Node(Ctx::DsOob55d1), "DsOob55d1")),
        92 => Some((Kind::Node(Ctx::UsOob55d1), "UsOob55d1")),
        96 => Some((Kind::Node(Ctx::SidQos), "SidQos")),
        98 => Some((Kind::Node(Ctx::UsRfPort), "UsRfPort")),
        105 => Some((Kind::Node(Ctx::RpdConnectionStatus), "RpdConnectionStatus")),
        106 => Some((Kind::Node(Ctx::CoreGcpConnectionResponse), "CoreGcpConnectionResponse")),
        107 => Some((Kind::Node(Ctx::RpdBackupCoreStatus), "RpdBackupCoreStatus")),
        108 => Some((Kind::Node(Ctx::CoreGcpBackupResponse), "CoreGcpBackupResponse")),
        109 => Some((Kind::Node(Ctx::GcpHandoverControl), "GcpHandoverControl")),
        160 => Some((Kind::Node(Ctx::RfmConfig), "RfmConfig")),
        150 => Some((Kind::Node(Ctx::UsScQamProfileQuery), "UsScQamProfileQuery")),
        151 => Some((Kind::Node(Ctx::UsScQamProfileResponse), "UsScQamProfileResponse")),
        152 => Some((Kind::Node(Ctx::QueryOfdmaRollOffPeriod), "QueryOfdmaRollOffPeriod")),
        153 => Some((Kind::Node(Ctx::ResponseOfdmaRollOffPeriod), "ResponseOfdmaRollOffPeriod")),
        _ => None,
    }
}

/// The fields of the RfChannelSelector context.
pub open spec fn rf_channel_selector_spec(code: u8) -> Option<(Kind, Seq<char>)> {
    match code {
        1 => Some((Kind::Leaf(Format::U8), "RfPortIndex"@)),
        2 => Some((Kind::Leaf(Format::NamedU8(Named::RfChannelType)), "RfChannelType"@)),
        3 => Some((Kind::Leaf(Format::U8), "RfChannelIndex"@)),
        _ => None,
    }
}

fn rf_channel_selector(code: u8) -> (r: Option<(Kind, &'static str)>)
    ensures
        match (r, rf_channel_selector_spec(code)) {
            (Some((k, l)), Some((ks, ls))) => k == ks && l@ == ls,
            (None, None) => true,
            _ => false,
        },
{
    match code {
        1 => Some((Kind::Leaf(Format::U8), "RfPortIndex")),
        2 => Some((Kind::Leaf(Format::NamedU8(Named::RfChannelType)), "RfChannelType")),
        3 => Some((Kind::Leaf(Format::U8), "RfChannelIndex")),
        _ => None,
    }
}

/// The fields of the RfPortSelector context.
pub open spec fn rf_port_selector_spec(code: u8) -> Option<(Kind, Seq<char>)> {
    match code {
        1 => Some((Kind::Leaf(Format::U8), "RfPortIndex1"@)),
        2 => Some((Kind::Leaf(Format::NamedU8(Named::RfPortType)), "RfPortType"@)),
        _ => None,
    }
}

fn rf_port_selector(code: u8) -> (r: Option<(Kind, &'static str)>)
    ensures
        match (r, rf_port_selector_spec(code)) {
            (Some((k, l)), Some((ks, ls))) => k == ks && l@ == ls,
            (None, None) => true,
            _ => false,
        },
{
    match code {
        1 => Some((Kind::Leaf(Format::U8), "RfPortIndex1")),
        2 => Some((Kind::Leaf(Format::NamedU8(Named::RfPortType)), "RfPortType")),
        _ => None,
    }
}

/// The fields of the RfChannel context.
pub open spec fn rf_channel_spec(code: u8) -> Option<(Kind, Seq<char>)> {
    match code {
        12 => Some((Kind::Node(Ctx::RfChannelRfChannelSelector), "RfChannelSelector"@)),
        13 => Some((Kind::Node(Ctx::RfChannelRfPortSelector), "RfPortSelector"@)),
        62 => Some((Kind::Node(Ctx::DsScQamChannelConfig), "DsScQamChannelConfig"@)),
        91 => Some((Kind::Node(Ctx::RfChannelDsOob55d1), "DsOob55d1"@)),
        92 => Some((Kind::Node(Ctx::RfChannelUsOob55d1), "UsOob55d1"@)),
        _ => None,
    }
}

fn rf_channel(code: u8) -> (r: Option<(Kind, &'static str)>)
    ensures
        match (r, rf_channel_spec(code)) {
            (Some((k, l)), Some((ks, ls))) => k == ks && l@ == ls,
            (None, None) => true,
            _ => false,
        },
{
    match code {
        12 => Some((Kind::Node(Ctx::RfChannelRfChannelSelector), "RfChannelSelector")),
        13 => Some((Kind::Node(Ctx::RfChannelRfPortSelector), "RfPortSelector")),
        62 => Some((Kind::Node(Ctx::DsScQamChannelConfig), "DsScQamChannelConfig")),
        91 => Some((Kind::Node(Ctx::RfChannelDsOob55d1), "DsOob55d1")),
        92 => Some((Kind::Node(Ctx::RfChannelUsOob55d1), "UsOob55d1")),
        _ => None,
    }
}

/// The fields of the RfChannelRfChannelSelector context.
pub open spec fn rf_channel_rf_channel_selector_spec(code: u8) -> Option<(Kind, Seq<char>)> {
    match code {
        1 => Some((Kind::Leaf(Format::U8), "RfPortIndex"@)),
        2 => Some((Kind::Leaf(Format::NamedU8(Named::RfChannelType)), "RfChannelType"@)),
        3 => Some((Kind::Leaf(Format::U8), "RfChannelIndex"@)),
        _ => None,
    }
}

fn rf_channel_rf_channel_selector(code: u8) -> (r: Option<(Kind, &'static str)>)
    ensures
        match (r, rf_channel_rf_channel_selector_spec(code)) {
            (Some((k, l)), Some((ks, ls))) => k == ks && l@ == ls,
            (None, None) => true,
            _ => false,
        },
{
    match code {
        1 => Some((Kind::Leaf(Format::U8), "RfPortIndex")),
        2 => Some((Kind::Leaf(Format::NamedU8(Named::RfChannelType)), "RfChannelType")),
        3 => Some((Kind::Leaf(Format::U8), "RfChannelIndex")),
        _ => None,
    }
}

/// The fields of the RfChannelRfPortSelector context.
pub open spec fn rf_channel_rf_port_selector_spec(code: u8) -> Option<(Kind, Seq<char>)> {
    match code {
        1 => Some((Kind::Leaf(Format::U8), "RfPortIndex1"@)),
        2 => Some((Kind::Leaf(Format::U8), "RfPortType"@)),
        _ => None,
    }
}

fn rf_channel_rf_port_selector(code: u8) -> (r: Option<(Kind, &'static str)>)
    ensures
        match (r, rf_channel_rf_port_selector_spec(code)) {
            (Some((k, l)), Some((ks, ls))) => k == ks && l@ == ls,
            (None, None) => true,
            _ => false,
        },
{
    match code {
        1 => Some((Kind::Leaf(Format::U8), "RfPortIndex1")),
        2 => Some((Kind::Leaf(Format::U8), "RfPortType")),
        _ => None,
    }
}

/// The fields of the RfChannelDsOob55d1 context.
pub open spec fn rf_channel_ds_oob55d1_spec(code: u8) -> Option<(Kind, Seq<char>)> {
    match code {
        1 => Some((Kind::Leaf(Format::NamedU8(Named::AdminStateType)), "AdminState"@)),
        2 => Some((Kind::Leaf(Format::Hex), "CcapCoreOwner"@)),
        3 => Some((Kind::Leaf(Format::Choice(Choice::RfChannelDsOob55d1RfMute)), "RfMute"@)),
        4 => Some((Kind::Leaf(Format::U32), "Frequency"@)),
        5 => Some((Kind::Leaf(Format::U16), "PowerAdjust"@)),
        6 => Some((Kind::Leaf(Format::U32), "SecondFrequency"@)),
        7 => Some((Kind::Leaf(Format::U16), "SfPowerAdjust"@)),
        8 => Some((Kind::Leaf(Format::NamedU8(Named::AdminStateType)), "SfAdminState"@)),
        9 => Some((Kind::Leaf(Format::Choice(Choice::RfChannelDsOob55d1SfPowerAdjust)), "SfPowerAdjust"@)),
        _ => None,
    }
}

fn rf_channel_ds_oob55d1(code: u8) -> (r: Option<(Kind, &'static str)>)
    ensures
        match (r, rf_channel_ds_oob55d1_spec(code)) {
            (Some((k, l)), Some((ks, ls))) => k == ks && l@ == ls,
            (None, None) => true,
            _ => false,
        },
{
    match code {
        1 => Some((Kind::Leaf(Format::NamedU8(Named::AdminStateType)), "AdminState")),
        2 => Some((Kind::Leaf(Format::Hex), "CcapCoreOwner")),
        3 => Some((Kind::Leaf(Format::Choice(Choice::RfChannelDsOob55d1RfMute)), "RfMute")),
        4 => Some((Kind::Leaf(Format::U32), "Frequency")),
        5 => Some((Kind::Leaf(Format::U16), "PowerAdjust")),
        6 => Some((Kind::Leaf(Format::U32), "SecondFrequency")),
        7 => Some((Kind::Leaf(Format::U16), "SfPowerAdjust")),
        8 => Some((Kind::Leaf(Format::NamedU8(Named::AdminStateType)), "SfAdminState")),
        9 => Some((Kind::Leaf(Format::Choice(Choice::RfChannelDsOob55d1SfPowerAdjust)), "SfPowerAdjust")),
        _ => None,
    }
}

/// The fields of the RfChannelUsOob55d1 context.
pub open spec fn rf_channel_us_oob55d1_spec(code: u8) -> Option<(Kind, Seq<char>)> {
    match code {
        1 => Some((Kind::Leaf(Format::NamedU8(Named::AdminStateType)), "AdminState"@)),
        2 => Some((Kind::Leaf(Format::Hex), "CcapCoreOwner"@)),
        3 => Some((Kind::Leaf(Format::U32), "Frequency"@)),
        4 => Some((Kind::Leaf(Format::U32), "VarpdDeviceId"@)),
        5 => Some((Kind::Leaf(Format::U8), "VarpdRfPortId"@)),
        6 => Some((Kind::Leaf(Format::U8), "VarpdDemodId"@)),
        7 => Some((Kind::Leaf(Format::U16), "TargetRxPowerAdjust"@)),
        _ => None,
    }
}

fn rf_channel_us_oob55d1(code: u8) -> (r: Option<(Kind, &'static str)>)
    ensures
        match (r, rf_channel_us_oob55d1_spec(code)) {
            (Some((k, l)), Some((ks, ls))) => k == ks && l@ == ls,
            (None, None) => true,
            _ => false,
        },
{
    match code {
        1 => Some((Kind::Leaf(Format::NamedU8(Named::AdminStateType)), "AdminState")),
        2 => Some((Kind::Leaf(Format::Hex), "CcapCoreOwner")),
        3 => Some((Kind::Leaf(Format::U32), "Frequency")),
        4 => Some((Kind::Leaf(Format::U32), "VarpdDeviceId")),
        5 => Some((Kind::Leaf(Format::U8), "VarpdRfPortId")),
        6 => Some((Kind::Leaf(Format::U8), "VarpdDemodId")),
        7 => Some((Kind::Leaf(Format::U16), "TargetRxPowerAdjust")),
        _ => None,
    }
}

/// The fields of the StaticPwStatus context.
pub open spec fn static_pw_status_spec(code: u8) -> Option<(Kind, Seq<char>)> {
    match code {
        1 => Some((Kind::Node(Ctx::StaticPwStatusCommonStaticPwStatus), "CommonStaticPwStatus"@)),
        _ => None,
    }
}

fn static_pw_status(code: u8) -> (r: Option<(Kind, &'static str)>)
    ensures
        match (r, static_pw_status_spec(code)) {
            (Some((k, l)), Some((ks, ls))) => k == ks && l@ == ls,
            (None, None) => true,
            _ => false,
        },
{
    match code {
        1 => Some((Kind::Node(Ctx::StaticPwStatusCommonStaticPwStatus), "CommonStaticPwStatus")),
        _ => None,
    }
}

/// The fields of the StaticPwStatusCommonStaticPwStatus context.
pub open spec fn static_pw_status_common_static_pw_status_spec(code: u8) -> Option<(Kind, Seq<char>)> {
    match code {
        1 => Some((Kind::Leaf(Format::Choice(Choice::StaticPwStatusCommonStaticPwStatusDirection)), "Direction"@)),
        2 => Some((Kind::Leaf(Format::U16), "Index"@)),
        3 => Some((Kind::Leaf(Format::U16), "RpdCircuitStatus"@)),
        4 => Some((Kind::Leaf(Format::U32), "RpdSelectedSessionId"@)),
        _ => None,
    }
}

fn static_pw_status_common_static_pw_status(code: u8) -> (r: Option<(Kind, &'static str)>)
    ensures
        match (r, static_pw_status_common_static_pw_status_spec(code)) {
            (Some((k, l)), Some((ks, ls))) => k == ks && l@ == ls,
            (None, None) => true,
            _ => false,
        },
{
    match code {
        1 => Some((Kind::Leaf(Format::Choice(Choice::StaticPwStatusCommonStaticPwStatusDirection)), "Direction")),
        2 => Some((Kind::Leaf(Format::U16), "Index")),
        3 => Some((Kind::Leaf(Format::U16), "RpdCircuitStatus")),
        4 => Some((Kind::Leaf(Format::U32), "RpdSelectedSessionId")),
        _ => None,
    }
}

/// The fields of the UsOfdmaInitialRangingIuc context.
pub open spec fn us_ofdma_initial_ranging_iuc_spec(code: u8) -> Option<(Kind, Seq<char>)> {
    match code {
        1 => Some((Kind::Leaf(Format::U16), "NumSubcarriers"@)),
        2 => Some((Kind::Leaf(Format::U16), "Guardband"@)),
        _ => None,
    }
}

fn us_ofdma_initial_ranging_iuc(code: u8) -> (r: Option<(Kind, &'static str)>)
    ensures
        match (r, us_ofdma_initial_ranging_iuc_spec(code)) {
            (Some((k, l)), Some((ks, ls))) => k == ks && l@ == ls,
            (None, None) => true,
            _ => false,
        },
{
    match code {
        1 => Some((Kind::Leaf(Format::U16), "NumSubcarriers")),
        2 => Some((Kind::Leaf(Format::U16), "Guardband")),
        _ => None,
    }
}

/// The fields of the UsOfdmaFineRangingIuc context.
pub open spec fn us_ofdma_fine_ranging_iuc_spec(code: u8) -> Option<(Kind, Seq<char>)> {
    match code {
        1 => Some((Kind::Leaf(Format::U16), "NumSubcarriers"@)),
        2 => Some((Kind::Leaf(Format::U16), "Guardband"@)),
        _ => None,
    }
}

fn us_ofdma_fine_ranging_iuc(code: u8) -> (r: Option<(Kind, &'static str)>)
    ensures
        match (r, us_ofdma_fine_ranging_iuc_spec(code)) {
            (Some((k, l)), Some((ks, ls))) => k == ks && l@ == ls,
            (None, None) => true,
            _ => false,
        },
{
    match code {
        1 => Some((Kind::Leaf(Format::U16), "NumSubcarriers")),
        2 => Some((Kind::Leaf(Format::U16), "Guardband")),
        _ => None,
    }
}

/// The fields of the UsOfdmaDataIuc context.
pub open spec fn us_ofdma_data_iuc_spec(code: u8) -> Option<(Kind, Seq<char>)> {
    match code {
        1 => Some((Kind::Leaf(Format::U8), "DataIuc"@)),
        2 => Some((Kind::Leaf(Format::U16), "StartMinislot"@)),
        3 => Some((Kind::Leaf(Format::U16), "FirstSubcarrierId"@)),
        4 => Some((Kind::Leaf(Format::U16), "NumConsecutiveMinislots"@)),
        5 => Some((Kind::Leaf(Format::U8), "MinislotPilotPattern"@)),
        6 => Some((Kind::Leaf(Format::NamedU8(Named::UsOfdmaModulationType)), "DataSymbolModulation"@)),
        _ => None,
    }
}

fn us_ofdma_data_iuc(code: u8) -> (r: Option<(Kind, &'static str)>)
    ensures
        match (r, us_ofdma_data_iuc_spec(code)) {
            (Some((k, l)), Some((ks, ls))) => k == ks && l@ == ls,
            (None, None) => true,
            _ => false,
        },
{
    match code {
        1 => Some((Kind::Leaf(Format::U8), "DataIuc")),
        2 => Some((Kind::Leaf(Format::U16), "StartMinislot")),
        3 => Some((Kind::Leaf(Format::U16), "FirstSubcarrierId")),
        4 => Some((Kind::Leaf(Format::U16), "NumConsecutiveMinislots")),
        5 => Some((Kind::Leaf(Format::U8), "MinislotPilotPattern")),
        6 => Some((Kind::Leaf(Format::NamedU8(Named::UsOfdmaModulationType)), "DataSymbolModulation")),
        _ => None,
    }
}

/// The fields of the UsOfdmaSubcarrierCfgState context.
pub open spec fn us_ofdma_subcarrier_cfg_state_spec(code: u8) -> Option<(Kind, Seq<char>)> {
    match code {
        1 => Some((Kind::Leaf(Format::U16), "StartingSubcarrierId"@)),
        2 => Some((Kind::Leaf(Format::U16), "NumConsecutiveSubcarriers"@)),
        3 => Some((Kind::Leaf(Format::NamedU8(Named::SubcarrierUsageType)), "SubcarrierUsage"@)),
        _ => None,
    }
}

fn us_ofdma_subcarrier_cfg_state(code: u8) -> (r: Option<(Kind, &'static str)>)
    ensures
        match (r, us_ofdma_subcarrier_cfg_state_spec(code)) {
            (Some((k, l)), Some((ks, ls))) => k == ks && l@ == ls,
            (None, None) => true,
            _ => false,
        },
{
    match code {
        1 => Some((Kind::Leaf(Format::U16), "StartingSubcarrierId")),
        2 => Some((Kind::Leaf(Format::U16), "NumConsecutiveSubcarriers")),
        3 => Some((Kind::Leaf(Format::NamedU8(Named::SubcarrierUsageType)), "SubcarrierUsage")),
        _ => None,
    }
}

/// The fields of the DsRfPortPerf context.
pub open spec fn ds_rf_port_perf_spec(code: u8) -> Option<(Kind, Seq<char>)> {
    match code {
        1 => Some((Kind::Leaf(Format::NamedU8(Named::OperationalStatusType)), "operStatusDsRfPort"@)),
        _ => None,
    }
}

fn ds_rf_port_perf(code: u8) -> (r: Option<(Kind, &'static str)>)
    ensures
        match (r, ds_rf_port_perf_spec(code)) {
            (Some((k, l)), Some((ks, ls))) => k == ks && l@ == ls,
            (None, None) => true,
            _ => false,
        },
{
    match code {
        1 => Some((Kind::Leaf(Format::NamedU8(Named::OperationalStatusType)), "operStatusDsRfPort")),
        _ => None,
    }
}

/// The fields of the DsScQamChannelPerf context.
pub open spec fn ds_sc_qam_channel_perf_spec(code: u8) -> Option<(Kind, Seq<char>)> {
    match code {
        1 => Some((Kind::Leaf(Format::U64), "outDiscards"@)),
        2 => Some((Kind::Leaf(Format::U64), "outErrors"@)),
        3 => Some((Kind::Leaf(Format::U64), "outPackets"@)),
        4 => Some((Kind::Leaf(Format::Date), "discontinuityTime"@)),
        5 => Some((Kind::Leaf(Format::NamedU8(Named::OperationalStatusType)), "operStatusDsScQam"@)),
        _ => None,
    }
}

fn ds_sc_qam_channel_perf(code: u8) -> (r: Option<(Kind, &'static str)>)
    ensures
        match (r, ds_sc_qam_channel_perf_spec(code)) {
            (Some((k, l)), Some((ks, ls))) => k == ks && l@ == ls,
            (None, None) => true,
            _ => false,
        },
{
    match code {
        1 => Some((Kind::Leaf(Format::U64), "outDiscards")),
        2 => Some((Kind::Leaf(Format::U64), "outErrors")),
        3 => Some((Kind::Leaf(Format::U64), "outPackets")),
        4 => Some((Kind::Leaf(Format::Date), "discontinuityTime")),
        5 => Some((Kind::Leaf(Format::NamedU8(Named::OperationalStatusType)), "operStatusDsScQam")),
        _ => None,
    }
}

/// The fields of the DsOob551Perf context.
pub open spec fn ds_oob551_perf_spec(code: u8) -> Option<(Kind, Seq<char>)> {
    match code {
        1 => Some((Kind::Leaf(Format::U64), "outDiscards"@)),
        2 => Some((Kind::Leaf(Format::U64), "outErrors"@)),
        3 => Some((Kind::Leaf(Format::U64), "outPackets"@)),
        4 => Some((Kind::Leaf(Format::Date), "discontinuityTime"@)),
        5 => Some((Kind::Leaf(Format::NamedU8(Named::OperationalStatusType)), "operStatusDsOob551"@)),
        _ => None,
    }
}

fn ds_oob551_perf(code: u8) -> (r: Option<(Kind, &'static str)>)
    ensures
        match (r, ds_oob551_perf_spec(code)) {
            (Some((k, l)), Some((ks, ls))) => k == ks && l@ == ls,
            (None, None) => true,
            _ => false,
        },
{
    match code {
        1 => Some((Kind::Leaf(Format::U64), "outDiscards")),
        2 => Some((Kind::Leaf(Format::U64), "outErrors")),
        3 => Some((Kind::Leaf(Format::U64), "outPackets")),
        4 => Some((Kind::Leaf(Format::Date), "discontinuityTime")),
        5 => Some((Kind::Leaf(Format::NamedU8(Named::OperationalStatusType)), "operStatusDsOob551")),
        _ => None,
    }
}

/// The fields of the DsOob552Perf context.
pub open spec fn ds_oob552_perf_spec(code: u8) -> Option<(Kind, Seq<char>)> {
    match code {
        1 => Some((Kind::Leaf(Format::U64), "outDiscards"@)),
        2 => Some((Kind::Leaf(Format::U64), "outErrors"@)),
        3 => Some((Kind::Leaf(Format::U64), "outPackets"@)),
        4 => Some((Kind::Leaf(Format::Date), "discontinuityTime"@)),
        5 => Some((Kind::Leaf(Format::NamedU8(Named::OperationalStatusType)), "operStatusDsOob552"@)),
        _ => None,
    }
}

fn ds_oob552_perf(code: u8) -> (r: Option<(Kind, &'static str)>)
    ensures
        match (r, ds_oob552_perf_spec(code)) {
            (Some((k, l)), Some((ks, ls))) => k == ks && l@ == ls,
            (None, None) => true,
            _ => false,
        },
{
    match code {
        1 => Some((Kind::Leaf(Format::U64), "outDiscards")),
        2 => Some((Kind::Leaf(Format::U64), "outErrors")),
        3 => Some((Kind::Leaf(Format::U64), "outPackets")),
        4 => Some((Kind::Leaf(Format::Date), "discontinuityTime")),
        5 => Some((Kind::Leaf(Format::NamedU8(Named::OperationalStatusType)), "operStatusDsOob552")),
        _ => None,
    }
}

/// The fields of the NdfPerf context.
pub open spec fn ndf_perf_spec(code: u8) -> Option<(Kind, Seq<char>)> {
    match code {
        1 => Some((Kind::Leaf(Format::U64), "outDiscards"@)),
        2 => Some((Kind::Leaf(Format::U64), "outErrors"@)),
        3 => Some((Kind::Leaf(Format::U64), "outPackets"@)),
        4 => Some((Kind::Leaf(Format::Date), "discontinuityTime"@)),
        5 => Some((Kind::Leaf(Format::NamedU8(Named::OperationalStatusType)), "operStatusNdf"@)),
        _ => None,
    }
}

fn ndf_perf(code: u8) -> (r: Option<(Kind, &'static str)>)
    ensures
        match (r, ndf_perf_spec(code)) {
            (Some((k, l)), Some((ks, ls))) => k == ks && l@ == ls,
            (None, None) => true,
            _ => false,
        },
{
    match code {
        1 => Some((Kind::Leaf(Format::U64), "outDiscards")),
        2 => Some((Kind::Leaf(Format::U64), "outErrors")),
        3 => Some((Kind::Leaf(Format::U64), "outPackets")),
        4 => Some((Kind::Leaf(Format::Date), "discontinuityTime")),
        5 => Some((Kind::Leaf(Format::NamedU8(Named::OperationalStatusType)), "operStatusNdf")),
        _ => None,
    }
}

/// The fields of the UsRfPortPerf context.
pub open spec fn us_rf_port_perf_spec(code: u8) -> Option<(Kind, Seq<char>)> {
    match code {
        1 => Some((Kind::Leaf(Format::NamedU8(Named::OperationalStatusType)), "operStatusUsRfPort"@)),
        _ => None,
    }
}

fn us_rf_port_perf(code: u8) -> (r: Option<(Kind, &'static str)>)
    ensures
        match (r, us_rf_port_perf_spec(code)) {
            (Some((k, l)), Some((ks, ls))) => k == ks && l@ == ls,
            (None, None) => true,
            _ => false,
        },
{
    match code {
        1 => Some((Kind::Leaf(Format::NamedU8(Named::OperationalStatusType)), "operStatusUsRfPort")),
        _ => None,
    }
}

/// The fields of the UsOob551Perf context.
pub open spec fn us_oob551_perf_spec(code: u8) -> Option<(Kind, Seq<char>)> {
    match code {
        1 => Some((Kind::Leaf(Format::NamedU8(Named::OperationalStatusType)), "operStatusUsOob551"@)),
        _ => None,
    }
}

fn us_oob551_perf(code: u8) -> (r: Option<(Kind, &'static str)>)
    ensures
        match (r, us_oob551_perf_spec(code)) {
            (Some((k, l)), Some((ks, ls))) => k == ks && l@ == ls,
            (None, None) => true,
            _ => false,
        },
{
    match code {
        1 => Some((Kind::Leaf(Format::NamedU8(Named::OperationalStatusType)), "operStatusUsOob551")),
        _ => None,
    }
}

/// The fields of the UsOob552Perf context.
pub open spec fn us_oob552_perf_spec(code: u8) -> Option<(Kind, Seq<char>)> {
    match code {
        1 => Some((Kind::Leaf(Format::NamedU8(Named::OperationalStatusType)), "operStatusUsOob552"@)),
        _ => None,
    }
}

fn us_oob552_perf(code: u8) -> (r: Option<(Kind, &'static str)>)
    ensures
        match (r, us_oob552_perf_spec(code)) {
            (Some((k, l)), Some((ks, ls))) => k == ks && l@ == ls,
            (None, None) => true,
            _ => false,
        },
{
    match code {
        1 => Some((Kind::Leaf(Format::NamedU8(Named::OperationalStatusType)), "operStatusUsOob552")),
        _ => None,
    }
}

/// The fields of the NdrPerf context.
pub open spec fn ndr_perf_spec(code: u8) -> Option<(Kind, Seq<char>)> {
    match code {
        1 => Some((Kind::Leaf(Format::NamedU8(Named::OperationalStatusType)), "operStatusNdr"@)),
        _ => None,
    }
}

fn ndr_perf(code: u8) -> (r: Option<(Kind, &'static str)>)
    ensures
        match (r, ndr_perf_spec(code)) {
            (Some((k, l)), Some((ks, ls))) => k == ks && l@ == ls,
            (None, None) => true,
            _ => false,
        },
{
    match code {
        1 => Some((Kind::Leaf(Format::NamedU8(Named::OperationalStatusType)), "operStatusNdr")),
        _ => None,
    }
}

/// The fields of the NotificationType context.
pub open spec fn notification_type_spec(code: u8) -> Option<(Kind, Seq<char>)> {
    match code {
        1 => Some((Kind::Leaf(Format::Choice(Choice::NotificationTypeNotificationType)), "NotificationType"@)),
        2 => Some((Kind::Leaf(Format::U8), "RedirectResult"@)),
        3 => Some((Kind::Leaf(Format::Ip), "RpdRedirectIpAddress"@)),
        4 => Some((Kind::Leaf(Format::U8), "PtpRpdEnetPortIndex"@)),
        5 => Some((Kind::Leaf(Format::U8), "PtpResult"@)),
        6 => Some((Kind::Leaf(Format::U8), "AuxCoreResult"@)),
        7 => Some((Kind::Leaf(Format::Ip), "AuxCoreIpAddress"@)),
        8 => Some((Kind::Leaf(Format::U8), "AuxCoreFailureType"@)),
        9 => Some((Kind::Leaf(Format::U8), "SpecificTimeOut"@)),
        10 => Some((Kind::Leaf(Format::Ip), "CoreTimedOutIpAddress"@)),
        11 => Some((Kind::Leaf(Format::U8), "PtpRpdPtpPortIndex"@)),
        12 => Some((Kind::Leaf(Format::U8), "PtpClockSource"@)),
        13 => Some((Kind::Leaf(Format::U8), "AuxCoreGcpConnectionStatus"@)),
        14 => Some((Kind::Leaf(Format::Hex), "AuxCoreId"@)),
        15 => Some((Kind::Leaf(Format::U32), "SsdFailureType"@)),
        _ => None,
    }
}

fn notification_type(code: u8) -> (r: Option<(Kind, &'static str)>)
    ensures
        match (r, notification_type_spec(code)) {
            (Some((k, l)), Some((ks, ls))) => k == ks && l@ == ls,
            (None, None) => true,
            _ => false,
        },
{
    match code {
        1 => Some((Kind::Leaf(Format::Choice(Choice::NotificationTypeNotificationType)), "NotificationType")),
        2 => Some((Kind::Leaf(Format::U8), "RedirectResult")),
        3 => Some((Kind::Leaf(Format::Ip), "RpdRedirectIpAddress")),
        4 => Some((Kind::Leaf(Format::U8), "PtpRpdEnetPortIndex")),
        5 => Some((Kind::Leaf(Format::U8), "PtpResult")),
        6 => Some((Kind::Leaf(Format::U8), "AuxCoreResult")),
        7 => Some((Kind::Leaf(Format::Ip), "AuxCoreIpAddress")),
        8 => Some((Kind::Leaf(Format::U8), "AuxCoreFailureType")),
        9 => Some((Kind::Leaf(Format::U8), "SpecificTimeOut")),
        10 => Some((Kind::Leaf(Format::Ip), "CoreTimedOutIpAddress")),
        11 => Some((Kind::Leaf(Format::U8), "PtpRpdPtpPortIndex")),
        12 => Some((Kind::Leaf(Format::U8), "PtpClockSource")),
        13 => Some((Kind::Leaf(Format::U8), "AuxCoreGcpConnectionStatus")),
        14 => Some((Kind::Leaf(Format::Hex), "AuxCoreId")),
        15 => Some((Kind::Leaf(Format::U32), "SsdFailureType")),
        _ => None,
    }
}

/// The fields of the SidQos context.
pub open spec fn sid_qos_spec(code: u8) -> Option<(Kind, Seq<char>)> {
    match code {
        1 => Some((Kind::Leaf(Format::U16), "StartSid"@)),
        2 => Some((Kind::Leaf(Format::U16), "NumSids"@)),
        3 => Some((Kind::Leaf(Format::NamedU8(Named::SidSfType)), "SidSfType"@)),
        4 => Some((Kind::Leaf(Format::U8), "SidUepiFlowId"@)),
        5 => Some((Kind::Leaf(Format::U32), "SidFlowTag"@)),
        6 => Some((Kind::Leaf(Format::U8), "FlowTagIncrement"@)),
        _ => None,
    }
}

fn sid_qos(code: u8) -> (r: Option<(Kind, &'static str)>)
    ensures
        match (r, sid_qos_spec(code)) {
            (Some((k, l)), Some((ks, ls))) => k == ks && l@ == ls,
            (None, None) => true,
            _ => false,
        },
{
    match code {
        1 => Some((Kind::Leaf(Format::U16), "StartSid")),
        2 => Some((Kind::Leaf(Format::U16), "NumSids")),
        3 => Some((Kind::Leaf(Format::NamedU8(Named::SidSfType)), "SidSfType")),
        4 => Some((Kind::Leaf(Format::U8), "SidUepiFlowId")),
        5 => Some((Kind::Leaf(Format::U32), "SidFlowTag")),
        6 => Some((Kind::Leaf(Format::U8), "FlowTagIncrement")),
        _ => None,
    }
}

/// The fields of the RpdConnectionStatus context.
pub open spec fn rpd_connection_status_spec(code: u8) -> Option<(Kind, Seq<char>)> {
    match code {
        1 => Some((Kind::Leaf(Format::U8), "Index"@)),
        2 => Some((Kind::Leaf(Format::Hex), "CoreId"@)),
        3 => Some((Kind::Leaf(Format::NamedU8(Named::RpdConnectionStatusType)), "RpdGcpConnectionStatus"@)),
        _ => None,
    }
}

fn rpd_connection_status(code: u8) -> (r: Option<(Kind, &'static str)>)
    ensures
        match (r, rpd_connection_status_spec(code)) {
            (Some((k, l)), Some((ks, ls))) => k == ks && l@ == ls,
            (None, None) => true,
            _ => false,
        },
{
    match code {
        1 => Some((Kind::Leaf(Format::U8), "Index")),
        2 => Some((Kind::Leaf(Format::Hex), "CoreId")),
        3 => Some((Kind::Leaf(Format::NamedU8(Named::RpdConnectionStatusType)), "RpdGcpConnectionStatus")),
        _ => None,
    }
}

/// The fields of the CoreGcpConnectionResponse context.
pub open spec fn core_gcp_connection_response_spec(code: u8) -> Option<(Kind, Seq<char>)> {
    match code {
        1 => Some((Kind::Leaf(Format::Hex), "CoreId"@)),
        2 => Some((Kind::Leaf(Format::NamedU8(Named::ResponseType)), "Response"@)),
        _ => None,
    }
}

fn core_gcp_connection_response(code: u8) -> (r: Option<(Kind, &'static str)>)
    ensures
        match (r, core_gcp_connection_response_spec(code)) {
            (Some((k, l)), Some((ks, ls))) => k == ks && l@ == ls,
            (None, None) => true,
            _ => false,
        },
{
    match code {
        1 => Some((Kind::Leaf(Format::Hex), "CoreId")),
        2 => Some((Kind::Leaf(Format::NamedU8(Named::ResponseType)), "Response")),
        _ => None,
    }
}

/// The fields of the RpdBackupCoreStatus context.
pub open spec fn rpd_backup_core_status_spec(code: u8) -> Option<(Kind, Seq<char>)> {
    match code {
        1 => Some((Kind::Leaf(Format::U8), "Index"@)),
        2 => Some((Kind::Leaf(Format::Hex), "CoreId"@)),
        3 => Some((Kind::Leaf(Format::NamedU8(Named::RpdGcpBackupCoreStatusType)), "RpdGcpBackupCoreStatus"@)),
        _ => None,
    }
}

fn rpd_backup_core_status(code: u8) -> (r: Option<(Kind, &'static str)>)
    ensures
        match (r, rpd_backup_core_status_spec(code)) {
            (Some((k, l)), Some((ks, ls))) => k == ks && l@ == ls,
            (None, None) => true,
            _ => false,
        },
{
    match code {
        1 => Some((Kind::Leaf(Format::U8), "Index")),
        2 => Some((Kind::Leaf(Format::Hex), "CoreId")),
        3 => Some((Kind::Leaf(Format::NamedU8(Named::RpdGcpBackupCoreStatusType)), "RpdGcpBackupCoreStatus")),
        _ => None,
    }
}

/// The fields of the CoreGcpBackupResponse context.
pub open spec fn core_gcp_backup_response_spec(code: u8) -> Option<(Kind, Seq<char>)> {
    match code {
        1 => Some((Kind::Leaf(Format::Hex), "CoreId"@)),
        2 => Some((Kind::Leaf(Format::NamedU8(Named::ResponseType)), "Response"@)),
        _ => None,
    }
}

fn core_gcp_backup_response(code: u8) -> (r: Option<(Kind, &'static str)>)
    ensures
        match (r, core_gcp_backup_response_spec(code)) {
            (Some((k, l)), Some((ks, ls))) => k == ks && l@ == ls,
            (None, None) => true,
            _ => false,
        },
{
    match code {
        1 => Some((Kind::Leaf(Format::Hex), "CoreId")),
        2 => Some((Kind::Leaf(Format::NamedU8(Named::ResponseType)), "Response")),
        _ => None,
    }
}

/// The fields of the GcpHandoverControl context.
pub open spec fn gcp_handover_control_spec(code: u8) -> Option<(Kind, Seq<char>)> {
    match code {
        1 => Some((Kind::Leaf(Format::Choice(Choice::GcpHandoverControlGcpHandoverControlAction)), "GcpHandoverControlAction"@)),
        2 => Some((Kind::Leaf(Format::Hex), "OosCore"@)),
        3 => Some((Kind::Leaf(Format::Hex), "NewActiveCore"@)),
        4 => Some((Kind::Leaf(Format::Choice(Choice::GcpHandoverControlL2TPv3)), "L2TPv3"@)),
        _ => None,
    }
}

fn gcp_handover_control(code: u8) -> (r: Option<(Kind, &'static str)>)
    ensures
        match (r, gcp_handover_control_spec(code)) {
            (Some((k, l)), Some((ks, ls))) => k == ks && l@ == ls,
            (None, None) => true,
            _ => false,
        },
{
    match code {
        1 => Some((Kind::Leaf(Format::Choice(Choice::GcpHandoverControlGcpHandoverControlAction)), "GcpHandoverControlAction")),
        2 => Some((Kind::Leaf(Format::Hex), "OosCore")),
        3 => Some((Kind::Leaf(Format::Hex), "NewActiveCore")),
        4 => Some((Kind::Leaf(Format::Choice(Choice::GcpHandoverControlL2TPv3)), "L2TPv3")),
        _ => None,
    }
}

/// The fields of the QueryOfdmaRollOffPeriod context.
pub open spec fn query_ofdma_roll_off_period_spec(code: u8) -> Option<(Kind, Seq<char>)> {
    match code {
        1 => Some((Kind::Leaf(Format::NamedU16(Named::UsOfdmaRollOffPeriodType)), "QueryOfdmaRollOffPeriod"@)),
        2 => Some((Kind::Leaf(Format::NamedU16(Named::UsOfdmaCyclicPrefixType)), "QueryOfdmaCyclicPrefix"@)),
        3 => Some((Kind::Leaf(Format::NamedU8(Named::SubcarrierSpacingType)), "QueryOfdmaSubcarrierSpacing"@)),
        4 => Some((Kind::Leaf(Format::U8), "QueryNumSymbolsPerFrame"@)),
        5 => Some((Kind::Leaf(Format::U32), "QueryOfdmaScramblerSeed"@)),
        _ => None,
    }
}

fn query_ofdma_roll_off_period(code: u8) -> (r: Option<(Kind, &'static str)>)
    ensures
        match (r, query_ofdma_roll_off_period_spec(code)) {
            (Some((k, l)), Some((ks, ls))) => k == ks && l@ == ls,
            (None, None) => true,
            _ => false,
        },
{
    match code {
        1 => Some((Kind::Leaf(Format::NamedU16(Named::UsOfdmaRollOffPeriodType)), "QueryOfdmaRollOffPeriod")),
        2 => Some((Kind::Leaf(Format::NamedU16(Named::UsOfdmaCyclicPrefixType)), "QueryOfdmaCyclicPrefix")),
        3 => Some((Kind::Leaf(Format::NamedU8(Named::SubcarrierSpacingType)), "QueryOfdmaSubcarrierSpacing")),
        4 => Some((Kind::Leaf(Format::U8), "QueryNumSymbolsPerFrame")),
        5 => Some((Kind::Leaf(Format::U32), "QueryOfdmaScramblerSeed")),
        _ => None,
    }
}

/// The fields of the ResponseOfdmaRollOffPeriod context.
pub open spec fn response_ofdma_roll_off_period_spec(code: u8) -> Option<(Kind, Seq<char>)> {
    match code {
        1 => Some((Kind::Leaf(Format::NamedU16(Named::UsOfdmaRollOffPeriodType)), "ResponseOfdmaRollOffPeriod"@)),
        2 => Some((Kind::Leaf(Format::NamedU16(Named::UsOfdmaCyclicPrefixType)), "ResponseOfdmaCyclicPrefix"@)),
        3 => Some((Kind::Leaf(Format::Hex), "ResponseOfdmaPreambleString"@)),
        4 => Some((Kind::Leaf(Format::U8), "ResponseNumSymbolsPerFrame"@)),
        5 => Some((Kind::Leaf(Format::U32), "ResponseOfdmaScramblerSeed"@)),
        _ => None,
    }
}

fn response_ofdma_roll_off_period(code: u8) -> (r: Option<(Kind, &'static str)>)
    ensures
        match (r, response_ofdma_roll_off_period_spec(code)) {
            (Some((k, l)), Some((ks, ls))) => k == ks && l@ == ls,
            (None, None) => true,
            _ => false,
        },
{
    match code {
        1 => Some((Kind::Leaf(Format::NamedU16(Named::UsOfdmaRollOffPeriodType)), "ResponseOfdmaRollOffPeriod")),
        2 => Some((Kind::Leaf(Format::NamedU16(Named::UsOfdmaCyclicPrefixType)), "ResponseOfdmaCyclicPrefix")),
        3 => Some((Kind::Leaf(Format::Hex), "ResponseOfdmaPreambleString")),
        4 => Some((Kind::Leaf(Format::U8), "ResponseNumSymbolsPerFrame")),
        5 => Some((Kind::Leaf(Format::U32), "ResponseOfdmaScramblerSeed")),
        _ => None,
    }
}

/// The fields of the RpdGlobal context.
pub open spec fn rpd_global_spec(code: u8) -> Option<(Kind, Seq<char>)> {
    match code {
        1 => Some((Kind::Node(Ctx::RpdGlobalEvCfg), "EvCfg"@)),
        2 => Some((Kind::Node(Ctx::RpdGlobalGcpConnVerification), "GcpConnVerification"@)),
        3 => Some((Kind::Node(Ctx::RpdGlobalIpConfig), "IpConfig"@)),
        4 => Some((Kind::Node(Ctx::RpdGlobalUepiControl), "UepiControl"@)),
        5 => Some((Kind::Leaf(Format::U8), "GcpDscp"@)),
        6 => Some((Kind::Node(Ctx::RpdGlobalLldpConfig), "LldpConfig"@)),
        7 => Some((Kind::Leaf(Format::U16), "CoreConnectTimeout"@)),
        _ => None,
    }
}

fn rpd_global(code: u8) -> (r: Option<(Kind, &'static str)>)
    ensures
        match (r, rpd_global_spec(code)) {
            (Some((k, l)), Some((ks, ls))) => k == ks && l@ == ls,
            (None, None) => true,
            _ => false,
        },
{
    match code {
        1 => Some((Kind::Node(Ctx::RpdGlobalEvCfg), "EvCfg")),
        2 => Some((Kind::Node(Ctx::RpdGlobalGcpConnVerification), "GcpConnVerification")),
        3 => Some((Kind::Node(Ctx::RpdGlobalIpConfig), "IpConfig")),
        4 => Some((Kind::Node(Ctx::RpdGlobalUepiControl), "UepiControl")),
        5 => Some((Kind::Leaf(Format::U8), "GcpDscp")),
        6 => Some((Kind::Node(Ctx::RpdGlobalLldpConfig), "LldpConfig")),
        7 => Some((Kind::Leaf(Format::U16), "CoreConnectTimeout")),
        _ => None,
    }
}

/// The fields of the RpdGlobalEvCfg context.
pub open spec fn rpd_global_ev_cfg_spec(code: u8) -> Option<(Kind, Seq<char>)> {
    match code {
        1 => Some((Kind::Node(Ctx::RpdGlobalEvCfgEvControl), "EvControl"@)),
        2 => Some((Kind::Leaf(Format::NamedU8(Named::EvThrottleAdminStatus)), "EvThrottleAdminStatus"@)),
        3 => Some((Kind::Leaf(Format::U32), "EvThrottleThreshold"@)),
        4 => Some((Kind::Leaf(Format::U32), "EvThrottleInterval"@)),
        5 => Some((Kind::Leaf(Format::Choice(Choice::RpdGlobalEvCfgNotifyEnable)), "NotifyEnable"@)),
        _ => None,
    }
}

fn rpd_global_ev_cfg(code: u8) -> (r: Option<(Kind, &'static str)>)
    ensures
        match (r, rpd_global_ev_cfg_spec(code)) {
            (Some((k, l)), Some((ks, ls))) => k == ks && l@ == ls,
            (None, None) => true,
            _ => false,
        },
{
    match code {
        1 => Some((Kind::Node(Ctx::RpdGlobalEvCfgEvControl), "EvControl")),
        2 => Some((Kind::Leaf(Format::NamedU8(Named::EvThrottleAdminStatus)), "EvThrottleAdminStatus")),
        3 => Some((Kind::Leaf(Format::U32), "EvThrottleThreshold")),
        4 => Some((Kind::Leaf(Format::U32), "EvThrottleInterval")),
        5 => Some((Kind::Leaf(Format::Choice(Choice::RpdGlobalEvCfgNotifyEnable)), "NotifyEnable")),
        _ => None,
    }
}

/// The fields of the RpdGlobalEvCfgEvControl context.
pub open spec fn rpd_global_ev_cfg_ev_control_spec(code: u8) -> Option<(Kind, Seq<char>)> {
    match code {
        1 => Some((Kind::Leaf(Format::NamedU8(Named::EvPriority)), "EvPriority"@)),
        2 => Some((Kind::Leaf(Format::U8), "EvReporting"@)),
        _ => None,
    }
}

fn rpd_global_ev_cfg_ev_control(code: u8) -> (r: Option<(Kind, &'static str)>)
    ensures
        match (r, rpd_global_ev_cfg_ev_control_spec(code)) {
            (Some((k, l)), Some((ks, ls))) => k == ks && l@ == ls,
            (None, None) => true,
            _ => false,
        },
{
    match code {
        1 => Some((Kind::Leaf(Format::NamedU8(Named::EvPriority)), "EvPriority")),
        2 => Some((Kind::Leaf(Format::U8), "EvReporting")),
        _ => None,
    }
}

/// The fields of the RpdGlobalGcpConnVerification context.
pub open spec fn rpd_global_gcp_conn_verification_spec(code: u8) -> Option<(Kind, Seq<char>)> {
    match code {
        1 => Some((Kind::Leaf(Format::Mac), "CoreId"@)),
        2 => Some((Kind::Leaf(Format::U16), "MaxGcpIdleTime"@)),
        3 => Some((Kind::Leaf(Format::NamedU8(Named::GcpRecoveryAction)), "GcpRecoveryAction"@)),
        4 => Some((Kind::Leaf(Format::U8), "GcpRecoveryActionRetry"@)),
        5 => Some((Kind::Leaf(Format::U16), "GcpRecoveryActionDelay"@)),
        6 => Some((Kind::Leaf(Format::U16), "GcpReconnectTimeout"@)),
        7 => Some((Kind::Leaf(Format::U16), "GcpHandoverTimeout"@)),
        _ => None,
    }
}

fn rpd_global_gcp_conn_verification(code: u8) -> (r: Option<(Kind, &'static str)>)
    ensures
        match (r, rpd_global_gcp_conn_verification_spec(code)) {
            (Some((k, l)), Some((ks, ls))) => k == ks && l@ == ls,
            (None, None) => true,
            _ => false,
        },
{
    match code {
        1 => Some((Kind::Leaf(Format::Mac), "CoreId")),
        2 => Some((Kind::Leaf(Format::U16), "MaxGcpIdleTime")),
        3 => Some((Kind::Leaf(Format::NamedU8(Named::GcpRecoveryAction)), "GcpRecoveryAction")),
        4 => Some((Kind::Leaf(Format::U8), "GcpRecoveryActionRetry")),
        5 => Some((Kind::Leaf(Format::U16), "GcpRecoveryActionDelay")),
        6 => Some((Kind::Leaf(Format::U16), "GcpReconnectTimeout")),
        7 => Some((Kind::Leaf(Format::U16), "GcpHandoverTimeout")),
        _ => None,
    }
}

/// The fields of the RpdGlobalIpConfig context.
pub open spec fn rpd_global_ip_config_spec(code: u8) -> Option<(Kind, Seq<char>)> {
    match code {
        1 => Some((Kind::Leaf(Format::Choice(Choice::RpdGlobalIpConfigIpStackControl)), "IpStackControl"@)),
        2 => Some((Kind::Leaf(Format::Choice(Choice::RpdGlobalIpConfigUseIcmpBasedPmtud)), "UseIcmpBasedPmtud"@)),
        _ => None,
    }
}

fn rpd_global_ip_config(code: u8) -> (r: Option<(Kind, &'static str)>)
    ensures
        match (r, rpd_global_ip_config_spec(code)) {
            (Some((k, l)), Some((ks, ls))) => k == ks && l@ == ls,
            (None, None) => true,
            _ => false,
        },
{
    match code {
        1 => Some((Kind::Leaf(Format::Choice(Choice::RpdGlobalIpConfigIpStackControl)), "IpStackControl")),
        2 => Some((Kind::Leaf(Format::Choice(Choice::RpdGlobalIpConfigUseIcmpBasedPmtud)), "UseIcmpBasedPmtud")),
        _ => None,
    }
}

/// The fields of the RpdGlobalUepiControl context.
pub open spec fn rpd_global_uepi_control_spec(code: u8) -> Option<(Kind, Seq<char>)> {
    match code {
        1 => Some((Kind::Leaf(Format::Choice(Choice::RpdGlobalUepiControlUepiControl)), "UepiControl"@)),
        2 => Some((Kind::Leaf(Format::U8), "OfdmaMaxNumPayloadUnits"@)),
        3 => Some((Kind::Leaf(Format::U8), "OfdmaMaxNumTrailerUnits"@)),
        _ => None,
    }
}

fn rpd_global_uepi_control(code: u8) -> (r: Option<(Kind, &'static str)>)
    ensures
        match (r, rpd_global_uepi_control_spec(code)) {
            (Some((k, l)), Some((ks, ls))) => k == ks && l@ == ls,
            (None, None) => true,
            _ => false,
        },
{
    match code {
        1 => Some((Kind::Leaf(Format::Choice(Choice::RpdGlobalUepiControlUepiControl)), "UepiControl")),
        2 => Some((Kind::Leaf(Format::U8), "OfdmaMaxNumPayloadUnits")),
        3 => Some((Kind::Leaf(Format::U8), "OfdmaMaxNumTrailerUnits")),
        _ => None,
    }
}

/// The fields of the RpdGlobalLldpConfig context.
pub open spec fn rpd_global_lldp_config_spec(code: u8) -> Option<(Kind, Seq<char>)> {
    match code {
        1 => Some((Kind::Leaf(Format::Choice(Choice::RpdGlobalLldpConfigLldpConfig)), "LldpConfig"@)),
        2 => Some((Kind::Leaf(Format::U16), "MsgTxInterval"@)),
        _ => None,
    }
}

fn rpd_global_lldp_config(code: u8) -> (r: Option<(Kind, &'static str)>)
    ensures
        match (r, rpd_global_lldp_config_spec(code)) {
            (Some((k, l)), Some((ks, ls))) => k == ks && l@ == ls,
            (None, None) => true,
            _ => false,
        },
{
    match code {
        1 => Some((Kind::Leaf(Format::Choice(Choice::RpdGlobalLldpConfigLldpConfig)), "LldpConfig")),
        2 => Some((Kind::Leaf(Format::U16), "MsgTxInterval")),
        _ => None,
    }
}

/// The fields of the RpdCapabilities context.
pub open spec fn rpd_capabilities_spec(code: u8) -> Option<(Kind, Seq<char>)> {
    match code {
        1 => Some((Kind::Leaf(Format::Note), "NumBdirPorts"@)),
        2 => Some((Kind::Leaf(Format::U16), "NumDsRfPorts"@)),
        3 => Some((Kind::Leaf(Format::U16), "NumUsRfPorts"@)),
        4 => Some((Kind::Leaf(Format::U16), "NumTenGeNsPorts"@)),
        5 => Some((Kind::Leaf(Format::U16), "NumOneGeNsPorts"@)),
        6 => Some((Kind::Leaf(Format::U16), "NumDsScQamChannels"@)),
        7 => Some((Kind::Leaf(Format::U16), "NumDsOfdmChannels"@)),
        8 => Some((Kind::Leaf(Format::U16), "NumUsScQamChannels"@)),
        9 => Some((Kind::Leaf(Format::U16), "NumUsOfdmaChannels"@)),
        10 => Some((Kind::Leaf(Format::U16), "NumDsOob55d1Channels"@)),
        11 => Some((Kind::Leaf(Format::U16), "NumUsOob55d1Channels"@)),
        12 => Some((Kind::Leaf(Format::U16), "NumOob55d2Modules"@)),
        13 => Some((Kind::Leaf(Format::U16), "NumUsOob55d2Demodulators"@)),
        14 => Some((Kind::Leaf(Format::U16), "NumNdfChannels"@)),
        15 => Some((Kind::Leaf(Format::U16), "NumNdrChannels"@)),
        16 => Some((Kind::Leaf(Format::Choice(Choice::RpdCapabilitiesSupportsUdpEncap)), "SupportsUdpEncap"@)),
        17 => Some((Kind::Leaf(Format::U8), "NumDsPspFlows"@)),
        18 => Some((Kind::Leaf(Format::U8), "NumUsPspFlows"@)),
        19 => Some((Kind::Node(Ctx::RpdCapabilitiesRpdIdentification), "RpdIdentification"@)),
        20 => Some((Kind::Node(Ctx::RpdCapabilitiesLcceChannelReachability), "LcceChannelReachability"@)),
        21 => Some((Kind::Node(Ctx::RpdCapabilitiesPilotToneCapabilities), "PilotToneCapabilities"@)),
        22 => Some((Kind::Node(Ctx::RpdCapabilitiesAllocDsChanResources), "AllocDsChanResources"@)),
        23 => Some((Kind::Node(Ctx::RpdCapabilitiesAllocUSChanlResources), "AllocUSChanlResources"@)),
        24 => Some((Kind::Node(Ctx::RpdCapabilitiesDeviceLocation), "DeviceLocation"@)),
        25 => Some((Kind::Leaf(Format::U8), "NumAsyncVideoChannels"@)),
        26 => Some((Kind::Leaf(Format::Choice(Choice::RpdCapabilitiesSupportsFlowTags)), "SupportsFlowTags"@)),
        27 => Some((Kind::Leaf(Format::Choice(Choice::RpdCapabilitiesSupportsFrequencyTilt)), "SupportsFrequencyTilt"@)),
        28 => Some((Kind::Leaf(Format::U16), "MaxTiltValue"@)),
        29 => Some((Kind::Leaf(Format::Flags(Flags::RpdCapabilitiesBufferDepthMonitorAlertSupport)), "BufferDepthMonitorAlertSupport"@)),
        30 => Some((Kind::Leaf(Format::Choice(Choice::RpdCapabilitiesBufferDepthConfigurationSupport)), "BufferDepthConfigurationSupport"@)),
        31 => Some((Kind::Leaf(Format::Text), "RpdUcdProcessingTime"@)),
        32 => Some((Kind::Leaf(Format::Text), "RpdUcdChangeNullGrantTime"@)),
        33 => Some((Kind::Leaf(Format::Choice(Choice::RpdCapabilitiesSupportMultiSectionTimingMerReporting)), "SupportMultiSectionTimingMerReporting"@)),
        34 => Some((Kind::Node(Ctx::RpdCapabilitiesRdtiCapabilities), "RdtiCapabilities"@)),
        35 => Some((Kind::Leaf(Format::U8), "MaxDsPspSegCount"@)),
        36 => Some((Kind::Leaf(Format::Choice(Choice::RpdCapabilitiesDirectDsFlowQueueMapping)), "DirectDsFlowQueueMapping"@)),
        37 => Some((Kind::Leaf(Format::Hex), "DsSchedulerPhbIdList"@)),
        38 => Some((Kind::Leaf(Format::U16), "RpdPendingEvRepQueueSize"@)),
        39 => Some((Kind::Leaf(Format::U16), "RpdLocalEventLogSize"@)),
        40 => Some((Kind::Leaf(Format::Choice(Choice::RpdCapabilitiesSupportsOpticalNodeRf)), "SupportsOpticalNodeRf"@)),
        41 => Some((Kind::Leaf(Format::U16), "MaxDsFrequency"@)),
        42 => Some((Kind::Leaf(Format::U16), "MinDsFrequency"@)),
        43 => Some((Kind::Leaf(Format::U16), "MaxBasePower"@)),
        44 => Some((Kind::Leaf(Format::U16), "MinTiltValue"@)),
        45 => Some((Kind::Leaf(Format::U16), "MinPowerAdjustScQam"@)),
        46 => Some((Kind::Leaf(Format::U16), "MaxPowerAdjustScQam"@)),
        47 => Some((Kind::Leaf(Format::U16), "MinPowerAdjustOfdm"@)),
        48 => Some((Kind::Leaf(Format::U16), "MaxPowerAdjustOfdm"@)),
        49 => Some((Kind::Node(Ctx::RpdCapabilitiesUsPowerCapabilities), "UsPowerCapabilities"@)),
        50 => Some((Kind::Node(Ctx::RpdCapabilitiesStaticPwCapabilities), "StaticPwCapabilities"@)),
        51 => Some((Kind::Node(Ctx::RpdCapabilitiesDsCapabilities), "DsCapabilities"@)),
        55 => Some((Kind::Node(Ctx::RpdCapabilitiesResetCapabilities), "ResetCapabilities"@)),
        59 => Some((Kind::Node(Ctx::RpdCapabilitiesSpectrumCaptureCapabilities), "SpectrumCaptureCapabilities"@)),
        60 => Some((Kind::Node(Ctx::RpdCapabilitiesRfmCapabilities), "RfmCapabilities"@)),
        61 => Some((Kind::Node(Ctx::RpdCapabilitiesUpstreamCapabilities), "UpstreamCapabilities"@)),
        62 => Some((Kind::Node(Ctx::RpdCapabilitiesPmtudCapabilities), "PmtudCapabilities"@)),
        63 => Some((Kind::Leaf(Format::Choice(Choice::RpdCapabilitiesSupportsFlowTagIncrement)), "SupportsFlowTagIncrement"@)),
        _ => None,
    }
}

fn rpd_capabilities(code: u8) -> (r: Option<(Kind, &'static str)>)
    ensures
        match (r, rpd_capabilities_spec(code)) {
            (Some((k, l)), Some((ks, ls))) => k == ks && l@ == ls,
            (None, None) => true,
            _ => false,
        },
{
    match code {
        1 => Some((Kind::Leaf(Format::Note), "NumBdirPorts")),
        2 => Some((Kind::Leaf(Format::U16), "NumDsRfPorts")),
        3 => Some((Kind::Leaf(Format::U16), "NumUsRfPorts")),
        4 => Some((Kind::Leaf(Format::U16), "NumTenGeNsPorts")),
        5 => Some((Kind::Leaf(Format::U16), "NumOneGeNsPorts")),
        6 => Some((Kind::Leaf(Format::U16), "NumDsScQamChannels")),
        7 => Some((Kind::Leaf(Format::U16), "NumDsOfdmChannels")),
        8 => Some((Kind::Leaf(Format::U16), "NumUsScQamChannels")),
        9 => Some((Kind::Leaf(Format::U16), "NumUsOfdmaChannels")),
        10 => Some((Kind::Leaf(Format::U16), "NumDsOob55d1Channels")),
        11 => Some((Kind::Leaf(Format::U16), "NumUsOob55d1Channels")),
        12 => Some((Kind::Leaf(Format::U16), "NumOob55d2Modules")),
        13 => Some((Kind::Leaf(Format::U16), "NumUsOob55d2Demodulators")),
        14 => Some((Kind::Leaf(Format::U16), "NumNdfChannels")),
        15 => Some((Kind::Leaf(Format::U16), "NumNdrChannels")),
        16 => Some((Kind::Leaf(Format::Choice(Choice::RpdCapabilitiesSupportsUdpEncap)), "SupportsUdpEncap")),
        17 => Some((Kind::Leaf(Format::U8), "NumDsPspFlows")),
        18 => Some((Kind::Leaf(Format::U8), "NumUsPspFlows")),
        19 => Some((Kind::Node(Ctx::RpdCapabilitiesRpdIdentification), "RpdIdentification")),
        20 => Some((Kind::Node(Ctx::RpdCapabilitiesLcceChannelReachability), "LcceChannelReachability")),
        21 => Some((Kind::Node(Ctx::RpdCapabilitiesPilotToneCapabilities), "PilotToneCapabilities")),
        22 => Some((Kind::Node(Ctx::RpdCapabilitiesAllocDsChanResources), "AllocDsChanResources")),
        23 => Some((Kind::Node(Ctx::RpdCapabilitiesAllocUSChanlResources), "AllocUSChanlResources")),
        24 => Some((Kind::Node(Ctx::RpdCapabilitiesDeviceLocation), "DeviceLocation")),
        25 => Some((Kind::Leaf(Format::U8), "NumAsyncVideoChannels")),
        26 => Some((Kind::Leaf(Format::Choice(Choice::RpdCapabilitiesSupportsFlowTags)), "SupportsFlowTags")),
        27 => Some((Kind::Leaf(Format::Choice(Choice::RpdCapabilitiesSupportsFrequencyTilt)), "SupportsFrequencyTilt")),
        28 => Some((Kind::Leaf(Format::U16), "MaxTiltValue")),
        29 => Some((Kind::Leaf(Format::Flags(Flags::RpdCapabilitiesBufferDepthMonitorAlertSupport)), "BufferDepthMonitorAlertSupport")),
        30 => Some((Kind::Leaf(Format::Choice(Choice::RpdCapabilitiesBufferDepthConfigurationSupport)), "BufferDepthConfigurationSupport")),
        31 => Some((Kind::Leaf(Format::Text), "RpdUcdProcessingTime")),
        32 => Some((Kind::Leaf(Format::Text), "RpdUcdChangeNullGrantTime")),
        33 => Some((Kind::Leaf(Format::Choice(Choice::RpdCapabilitiesSupportMultiSectionTimingMerReporting)), "SupportMultiSectionTimingMerReporting")),
        34 => Some((Kind::Node(Ctx::RpdCapabilitiesRdtiCapabilities), "RdtiCapabilities")),
        35 => Some((Kind::Leaf(Format::U8), "MaxDsPspSegCount")),
        36 => Some((Kind::Leaf(Format::Choice(Choice::RpdCapabilitiesDirectDsFlowQueueMapping)), "DirectDsFlowQueueMapping")),
        37 => Some((Kind::Leaf(Format::Hex), "DsSchedulerPhbIdList")),
        38 => Some((Kind::Leaf(Format::U16), "RpdPendingEvRepQueueSize")),
        39 => Some((Kind::Leaf(Format::U16), "RpdLocalEventLogSize")),
        40 => Some((Kind::Leaf(Format::Choice(Choice::RpdCapabilitiesSupportsOpticalNodeRf)), "SupportsOpticalNodeRf")),
        41 => Some((Kind::Leaf(Format::U16), "MaxDsFrequency")),
        42 => Some((Kind::Leaf(Format::U16), "MinDsFrequency")),
        43 => Some((Kind::Leaf(Format::U16), "MaxBasePower")),
        44 => Some((Kind::Leaf(Format::U16), "MinTiltValue")),
        45 => Some((Kind::Leaf(Format::U16), "MinPowerAdjustScQam")),
        46 => Some((Kind::Leaf(Format::U16), "MaxPowerAdjustScQam")),
        47 => Some((Kind::Leaf(Format::U16), "MinPowerAdjustOfdm")),
        48 => Some((Kind::Leaf(Format::U16), "MaxPowerAdjustOfdm")),
        49 => Some((Kind::Node(Ctx::RpdCapabilitiesUsPowerCapabilities), "UsPowerCapabilities")),
        50 => Some((Kind::Node(Ctx::RpdCapabilitiesStaticPwCapabilities), "StaticPwCapabilities")),
        51 => Some((Kind::Node(Ctx::RpdCapabilitiesDsCapabilities), "DsCapabilities")),
        55 => Some((Kind::Node(Ctx::RpdCapabilitiesResetCapabilities), "ResetCapabilities")),
        59 => Some((Kind::Node(Ctx::RpdCapabilitiesSpectrumCaptureCapabilities), "SpectrumCaptureCapabilities")),
        60 => Some((Kind::Node(Ctx::RpdCapabilitiesRfmCapabilities), "RfmCapabilities")),
        61 => Some((Kind::Node(Ctx::RpdCapabilitiesUpstreamCapabilities), "UpstreamCapabilities")),
        62 => Some((Kind::Node(Ctx::RpdCapabilitiesPmtudCapabilities), "PmtudCapabilities")),
        63 => Some((Kind::Leaf(Format::Choice(Choice::RpdCapabilitiesSupportsFlowTagIncrement)), "SupportsFlowTagIncrement")),
        _ => None,
    }
}

/// The fields of the RpdCapabilitiesRpdIdentification context.
pub open spec fn rpd_capabilities_rpd_identification_spec(code: u8) -> Option<(Kind, Seq<char>)> {
    match code {
        1 => Some((Kind::Leaf(Format::Text), "VendorName"@)),
        2 => Some((Kind::Leaf(Format::U16), "VendorId"@)),
        3 => Some((Kind::Leaf(Format::Text), "ModelNumber"@)),
        4 => Some((Kind::Leaf(Format::Mac), "DeviceMacAddress"@)),
        5 => Some((Kind::Leaf(Format::Text), "CurrentSwVersion"@)),
        6 => Some((Kind::Leaf(Format::Text), "BootRomVersion"@)),
        7 => Some((Kind::Leaf(Format::Text), "DeviceDescription"@)),
        8 => Some((Kind::Leaf(Format::Text), "DeviceAlias"@)),
        9 => Some((Kind::Leaf(Format::Text), "SerialNumber"@)),
        10 => Some((Kind::Leaf(Format::U16), "UsBurstReceiverVendorId"@)),
        11 => Some((Kind::Leaf(Format::Text), "UsBurstReceiverModelNumber"@)),
        12 => Some((Kind::Leaf(Format::Text), "UsBurstReceiverDriverVersion"@)),
        13 => Some((Kind::Leaf(Format::Text), "UsBurstReceiverSerialNumber"@)),
        14 => Some((Kind::Leaf(Format::Text), "RpdRcpProtocolVersion"@)),
        15 => Some((Kind::Leaf(Format::Text), "RpdRcpSchemaVersion"@)),
        16 => Some((Kind::Leaf(Format::Text), "HwRevision"@)),
        17 => Some((Kind::Leaf(Format::Text), "AssetId"@)),
        18 => Some((Kind::Leaf(Format::Text), "VspSelector"@)),
        19 => Some((Kind::Leaf(Format::Date), "CurrentSwImageLastUpdate"@)),
        20 => Some((Kind::Leaf(Format::Text), "CurrentSwImageName"@)),
        21 => Some((Kind::Leaf(Format::Ip), "CurrentSwImageServer"@)),
        22 => Some((Kind::Leaf(Format::U8), "CurrrentSwImageIndex"@)),
        _ => None,
    }
}

fn rpd_capabilities_rpd_identification(code: u8) -> (r: Option<(Kind, &'static str)>)
    ensures
        match (r, rpd_capabilities_rpd_identification_spec(code)) {
            (Some((k, l)), Some((ks, ls))) => k == ks && l@ == ls,
            (None, None) => true,
            _ => false,
        },
{
    match code {
        1 => Some((Kind::Leaf(Format::Text), "VendorName")),
        2 => Some((Kind::Leaf(Format::U16), "VendorId")),
        3 => Some((Kind::Leaf(Format::Text), "ModelNumber")),
        4 => Some((Kind::Leaf(Format::Mac), "DeviceMacAddress")),
        5 => Some((Kind::Leaf(Format::Text), "CurrentSwVersion")),
        6 => Some((Kind::Leaf(Format::Text), "BootRomVersion")),
        7 => Some((Kind::Leaf(Format::Text), "DeviceDescription")),
        8 => Some((Kind::Leaf(Format::Text), "DeviceAlias")),
        9 => Some((Kind::Leaf(Format::Text), "SerialNumber")),
        10 => Some((Kind::Leaf(Format::U16), "UsBurstReceiverVendorId")),
        11 => Some((Kind::Leaf(Format::Text), "UsBurstReceiverModelNumber")),
        12 => Some((Kind::Leaf(Format::Text), "UsBurstReceiverDriverVersion")),
        13 => Some((Kind::Leaf(Format::Text), "UsBurstReceiverSerialNumber")),
        14 => Some((Kind::Leaf(Format::Text), "RpdRcpProtocolVersion")),
        15 => Some((Kind::Leaf(Format::Text), "RpdRcpSchemaVersion")),
        16 => Some((Kind::Leaf(Format::Text), "HwRevision")),
        17 => Some((Kind::Leaf(Format::Text), "AssetId")),
        18 => Some((Kind::Leaf(Format::Text), "VspSelector")),
        19 => Some((Kind::Leaf(Format::Date), "CurrentSwImageLastUpdate")),
        20 => Some((Kind::Leaf(Format::Text), "CurrentSwImageName")),
        21 => Some((Kind::Leaf(Format::Ip), "CurrentSwImageServer")),
        22 => Some((Kind::Leaf(Format::U8), "CurrrentSwImageIndex")),
        _ => None,
    }
}

/// The fields of the RpdCapabilitiesLcceChannelReachability context.
pub open spec fn rpd_capabilities_lcce_channel_reachability_spec(code: u8) -> Option<(Kind, Seq<char>)> {
    match code {
        1 => Some((Kind::Leaf(Format::U8), "EnetPortIndex"@)),
        2 => Some((Kind::Leaf(Format::NamedU8(Named::RfChannelType)), "ChannelType"@)),
        3 => Some((Kind::Leaf(Format::U8), "RfPortIndex"@)),
        4 => Some((Kind::Leaf(Format::U8), "StartChannelIndex"@)),
        5 => Some((Kind::Leaf(Format::U8), "EndChannelIndex"@)),
        _ => None,
    }
}

fn rpd_capabilities_lcce_channel_reachability(code: u8) -> (r: Option<(Kind, &'static str)>)
    ensures
        match (r, rpd_capabilities_lcce_channel_reachability_spec(code)) {
            (Some((k, l)), Some((ks, ls))) => k == ks && l@ == ls,
            (None, None) => true,
            _ => false,
        },
{
    match code {
        1 => Some((Kind::Leaf(Format::U8), "EnetPortIndex")),
        2 => Some((Kind::Leaf(Format::NamedU8(Named::RfChannelType)), "ChannelType")),
        3 => Some((Kind::Leaf(Format::U8), "RfPortIndex")),
        4 => Some((Kind::Leaf(Format::U8), "StartChannelIndex")),
        5 => Some((Kind::Leaf(Format::U8), "EndChannelIndex")),
        _ => None,
    }
}

/// The fields of the RpdCapabilitiesPilotToneCapabilities context.
pub open spec fn rpd_capabilities_pilot_tone_capabilities_spec(code: u8) -> Option<(Kind, Seq<char>)> {
    match code {
        1 => Some((Kind::Leaf(Format::U8), "NumCwToneGens"@)),
        2 => Some((Kind::Leaf(Format::U32), "LowestCwToneFreq"@)),
        3 => Some((Kind::Leaf(Format::U32), "HighestCwToneFreq"@)),
        4 => Some((Kind::Leaf(Format::U16), "MaxPowerDedCwTone"@)),
        5 => Some((Kind::Leaf(Format::Choice(Choice::RpdCapabilitiesPilotToneCapabilitiesQamAsPilot)), "QamAsPilot"@)),
        6 => Some((Kind::Leaf(Format::U16), "MinPowerDedCwTone"@)),
        7 => Some((Kind::Leaf(Format::U16), "MaxPowerQamCwTone"@)),
        8 => Some((Kind::Leaf(Format::U16), "MinPowerQamCwTone"@)),
        _ => None,
    }
}

fn rpd_capabilities_pilot_tone_capabilities(code: u8) -> (r: Option<(Kind, &'static str)>)
    ensures
        match (r, rpd_capabilities_pilot_tone_capabilities_spec(code)) {
            (Some((k, l)), Some((ks, ls))) => k == ks && l@ == ls,
            (None, None) => true,
            _ => false,
        },
{
    match code {
        1 => Some((Kind::Leaf(Format::U8), "NumCwToneGens")),
        2 => Some((Kind::Leaf(Format::U32), "LowestCwToneFreq")),
        3 => Some((Kind::Leaf(Format::U32), "HighestCwToneFreq")),
        4 => Some((Kind::Leaf(Format::U16), "MaxPowerDedCwTone")),
        5 => Some((Kind::Leaf(Format::Choice(Choice::RpdCapabilitiesPilotToneCapabilitiesQamAsPilot)), "QamAsPilot")),
        6 => Some((Kind::Leaf(Format::U16), "MinPowerDedCwTone")),
        7 => Some((Kind::Leaf(Format::U16), "MaxPowerQamCwTone")),
        8 => Some((Kind::Leaf(Format::U16), "MinPowerQamCwTone")),
        _ => None,
    }
}

/// The fields of the RpdCapabilitiesAllocDsChanResources context.
pub open spec fn rpd_capabilities_alloc_ds_chan_resources_spec(code: u8) -> Option<(Kind, Seq<char>)> {
    match code {
        1 => Some((Kind::Leaf(Format::U8), "DsPortIndex"@)),
        2 => Some((Kind::Leaf(Format::U16), "AllocatedDsOfdmChannels"@)),
        3 => Some((Kind::Leaf(Format::U16), "AllocatedDsScQamChannels"@)),
        4 => Some((Kind::Leaf(Format::U16), "AllocatedDsOob55d1Channels"@)),
        5 => Some((Kind::Leaf(Format::Note), "(Deprecated)"@)),
        6 => Some((Kind::Leaf(Format::U16), "AllocatedNdfChannels"@)),
        7 => Some((Kind::Leaf(Format::U16), "AllocatedBdrs"@)),
        8 => Some((Kind::Leaf(Format::U16), "ConfiguredBcgs"@)),
        _ => None,
    }
}

fn rpd_capabilities_alloc_ds_chan_resources(code: u8) -> (r: Option<(Kind, &'static str)>)
    ensures
        match (r, rpd_capabilities_alloc_ds_chan_resources_spec(code)) {
            (Some((k, l)), Some((ks, ls))) => k == ks && l@ == ls,
            (None, None) => true,
            _ => false,
        },
{
    match code {
        1 => Some((Kind::Leaf(Format::U8), "DsPortIndex")),
        2 => Some((Kind::Leaf(Format::U16), "AllocatedDsOfdmChannels")),
        3 => Some((Kind::Leaf(Format::U16), "AllocatedDsScQamChannels")),
        4 => Some((Kind::Leaf(Format::U16), "AllocatedDsOob55d1Channels")),
        5 => Some((Kind::Leaf(Format::Note), "(Deprecated)")),
        6 => Some((Kind::Leaf(Format::U16), "AllocatedNdfChannels")),
        7 => Some((Kind::Leaf(Format::U16), "AllocatedBdrs")),
        8 => Some((Kind::Leaf(Format::U16), "ConfiguredBcgs")),
        _ => None,
    }
}

/// The fields of the RpdCapabilitiesAllocUSChanlResources context.
pub open spec fn rpd_capabilities_alloc_u_s_chanl_resources_spec(code: u8) -> Option<(Kind, Seq<char>)> {
    match code {
        1 => Some((Kind::Leaf(Format::U8), "UsPortIndex"@)),
        2 => Some((Kind::Leaf(Format::U16), "AllocatedUsOfdmaChannels"@)),
        3 => Some((Kind::Leaf(Format::U16), "AllocatedUsScQamChannels"@)),
        4 => Some((Kind::Leaf(Format::U16), "AllocatedUsOob55d1Channels"@)),
        5 => Some((Kind::Leaf(Format::Note), "(Deprecated)"@)),
        6 => Some((Kind::Leaf(Format::U16), "AllocatedNdrChannels"@)),
        _ => None,
    }
}

fn rpd_capabilities_alloc_u_s_chanl_resources(code: u8) -> (r: Option<(Kind, &'static str)>)
    ensures
        match (r, rpd_capabilities_alloc_u_s_chanl_resources_spec(code)) {
            (Some((k, l)), Some((ks, ls))) => k == ks && l@ == ls,
            (None, None) => true,
            _ => false,
        },
{
    match code {
        1 => Some((Kind::Leaf(Format::U8), "UsPortIndex")),
        2 => Some((Kind::Leaf(Format::U16), "AllocatedUsOfdmaChannels")),
        3 => Some((Kind::Leaf(Format::U16), "AllocatedUsScQamChannels")),
        4 => Some((Kind::Leaf(Format::U16), "AllocatedUsOob55d1Channels")),
        5 => Some((Kind::Leaf(Format::Note), "(Deprecated)")),
        6 => Some((Kind::Leaf(Format::U16), "AllocatedNdrChannels")),
        _ => None,
    }
}

/// The fields of the RpdCapabilitiesDeviceLocation context.
pub open spec fn rpd_capabilities_device_location_spec(code: u8) -> Option<(Kind, Seq<char>)> {
    match code {
        1 => Some((Kind::Leaf(Format::Text), "DeviceLocationDescription"@)),
        2 => Some((Kind::Leaf(Format::Text), "GeoLocationLatitude"@)),
        3 => Some((Kind::Leaf(Format::Text), "DeviceGeoLocationLongitude"@)),
        _ => None,
    }
}

fn rpd_capabilities_device_location(code: u8) -> (r: Option<(Kind, &'static str)>)
    ensures
        match (r, rpd_capabilities_device_location_spec(code)) {
            (Some((k, l)), Some((ks, ls))) => k == ks && l@ == ls,
            (None, None) => true,
            _ => false,
        },
{
    match code {
        1 => Some((Kind::Leaf(Format::Text), "DeviceLocationDescription")),
        2 => Some((Kind::Leaf(Format::Text), "GeoLocationLatitude")),
        3 => Some((Kind::Leaf(Format::Text), "DeviceGeoLocationLongitude")),
        _ => None,
    }
}

/// The fields of the RpdCapabilitiesRdtiCapabilities context.
pub open spec fn rpd_capabilities_rdti_capabilities_spec(code: u8) -> Option<(Kind, Seq<char>)> {
    match code {
        1 => Some((Kind::Leaf(Format::U8), "NumPtpPortsPerEnetPort"@)),
        _ => None,
    }
}

fn rpd_capabilities_rdti_capabilities(code: u8) -> (r: Option<(Kind, &'static str)>)
    ensures
        match (r, rpd_capabilities_rdti_capabilities_spec(code)) {
            (Some((k, l)), Some((ks, ls))) => k == ks && l@ == ls,
            (None, None) => true,
            _ => false,
        },
{
    match code {
        1 => Some((Kind::Leaf(Format::U8), "NumPtpPortsPerEnetPort")),
        _ => None,
    }
}

/// The fields of the RpdCapabilitiesUsPowerCapabilities context.
pub open spec fn rpd_capabilities_us_power_capabilities_spec(code: u8) -> Option<(Kind, Seq<char>)> {
    match code {
        1 => Some((Kind::Leaf(Format::U16), "MinBaseUsPowerTargetLevel"@)),
        2 => Some((Kind::Leaf(Format::U16), "MaxBaseUsPowerTargetLevel"@)),
        3 => Some((Kind::Leaf(Format::U16), "MinTargetRxPowerAdjustScqam"@)),
        4 => Some((Kind::Leaf(Format::U16), "MaxTargetRxPowerAdjustScqam"@)),
        5 => Some((Kind::Leaf(Format::U16), "MinTargetRxPowerAdjustOfdma"@)),
        6 => Some((Kind::Leaf(Format::U16), "MaxTargetRxPowerAdjustOfdma"@)),
        7 => Some((Kind::Leaf(Format::U16), "MinTargetRxPowerAdjustNdr"@)),
        8 => Some((Kind::Leaf(Format::U16), "MaxTargetRxPowerAdjustNdr"@)),
        _ => None,
    }
}

fn rpd_capabilities_us_power_capabilities(code: u8) -> (r: Option<(Kind, &'static str)>)
    ensures
        match (r, rpd_capabilities_us_power_capabilities_spec(code)) {
            (Some((k, l)), Some((ks, ls))) => k == ks && l@ == ls,
            (None, None) => true,
            _ => false,
        },
{
    match code {
        1 => Some((Kind::Leaf(Format::U16), "MinBaseUsPowerTargetLevel")),
        2 => Some((Kind::Leaf(Format::U16), "MaxBaseUsPowerTargetLevel")),
        3 => Some((Kind::Leaf(Format::U16), "MinTargetRxPowerAdjustScqam")),
        4 => Some((Kind::Leaf(Format::U16), "MaxTargetRxPowerAdjustScqam")),
        5 => Some((Kind::Leaf(Format::U16), "MinTargetRxPowerAdjustOfdma")),
        6 => Some((Kind::Leaf(Format::U16), "MaxTargetRxPowerAdjustOfdma")),
        7 => Some((Kind::Leaf(Format::U16), "MinTargetRxPowerAdjustNdr")),
        8 => Some((Kind::Leaf(Format::U16), "MaxTargetRxPowerAdjustNdr")),
        _ => None,
    }
}

/// The fields of the RpdCapabilitiesStaticPwCapabilities context.
pub open spec fn rpd_capabilities_static_pw_capabilities_spec(code: u8) -> Option<(Kind, Seq<char>)> {
    match code {
        1 => Some((Kind::Leaf(Format::U16), "MaxFwdStaticPws"@)),
        2 => Some((Kind::Leaf(Format::U16), "MaxRetStaticPws"@)),
        3 => Some((Kind::Leaf(Format::Choice(Choice::RpdCapabilitiesStaticPwCapabilitiesSupportsMptDepiPw)), "SupportsMptDepiPw"@)),
        4 => Some((Kind::Leaf(Format::Choice(Choice::RpdCapabilitiesStaticPwCapabilitiesSupportsMpt55d1RetPw)), "SupportsMpt55d1RetPw"@)),
        5 => Some((Kind::Leaf(Format::Choice(Choice::RpdCapabilitiesStaticPwCapabilitiesSupportsPspNdfMcastPw)), "SupportsPspNdfMcastPw"@)),
        6 => Some((Kind::Leaf(Format::Choice(Choice::RpdCapabilitiesStaticPwCapabilitiesSupportsPspNdrPw)), "SupportsPspNdrPw"@)),
        7 => Some((Kind::Leaf(Format::U16), "MaxUcastFwdStaticPws"@)),
        8 => Some((Kind::Leaf(Format::Choice(Choice::RpdCapabilitiesStaticPwCapabilitiesSupportsPspNdfUcastPw)), "SupportsPspNdfUcastPw"@)),
        9 => Some((Kind::Leaf(Format::Choice(Choice::RpdCapabilitiesStaticPwCapabilitiesSupportsPspPnmPw)), "SupportsPspPnmPw"@)),
        10 => Some((Kind::Leaf(Format::Choice(Choice::RpdCapabilitiesStaticPwCapabilitiesSupportsPspSpecmanPw)), "SupportsPspSpecmanPw"@)),
        _ => None,
    }
}

fn rpd_capabilities_static_pw_capabilities(code: u8) -> (r: Option<(Kind, &'static str)>)
    ensures
        match (r, rpd_capabilities_static_pw_capabilities_spec(code)) {
            (Some((k, l)), Some((ks, ls))) => k == ks && l@ == ls,
            (None, None) => true,
            _ => false,
        },
{
    match code {
        1 => Some((Kind::Leaf(Format::U16), "MaxFwdStaticPws")),
        2 => Some((Kind::Leaf(Format::U16), "MaxRetStaticPws")),
        3 => Some((Kind::Leaf(Format::Choice(Choice::RpdCapabilitiesStaticPwCapabilitiesSupportsMptDepiPw)), "SupportsMptDepiPw")),
        4 => Some((Kind::Leaf(Format::Choice(Choice::RpdCapabilitiesStaticPwCapabilitiesSupportsMpt55d1RetPw)), "SupportsMpt55d1RetPw")),
        5 => Some((Kind::Leaf(Format::Choice(Choice::RpdCapabilitiesStaticPwCapabilitiesSupportsPspNdfMcastPw)), "SupportsPspNdfMcastPw")),
        6 => Some((Kind::Leaf(Format::Choice(Choice::RpdCapabilitiesStaticPwCapabilitiesSupportsPspNdrPw)), "SupportsPspNdrPw")),
        7 => Some((Kind::Leaf(Format::U16), "MaxUcastFwdStaticPws")),
        8 => Some((Kind::Leaf(Format::Choice(Choice::RpdCapabilitiesStaticPwCapabilitiesSupportsPspNdfUcastPw)), "SupportsPspNdfUcastPw")),
        9 => Some((Kind::Leaf(Format::Choice(Choice::RpdCapabilitiesStaticPwCapabilitiesSupportsPspPnmPw)), "SupportsPspPnmPw")),
        10 => Some((Kind::Leaf(Format::Choice(Choice::RpdCapabilitiesStaticPwCapabilitiesSupportsPspSpecmanPw)), "SupportsPspSpecmanPw")),
        _ => None,
    }
}

/// The fields of the RpdCapabilitiesDsCapabilities context.
pub open spec fn rpd_capabilities_ds_capabilities_spec(code: u8) -> Option<(Kind, Seq<char>)> {
    match code {
        1 => Some((Kind::Leaf(Format::Flags(Flags::RpdCapabilitiesDsCapabilitiesDsScqamInterleaverSupport)), "DsScqamInterleaverSupport"@)),
        2 => Some((Kind::Leaf(Format::U16), "DsMaxDocsisScQamChannels"@)),
        3 => Some((Kind::Leaf(Format::U16), "DsMaxMultipleScQamPspSessions"@)),
        4 => Some((Kind::Leaf(Format::U16), "NumBdrs"@)),
        5 => Some((Kind::Leaf(Format::U16), "NumBcgs"@)),
        _ => None,
    }
}

fn rpd_capabilities_ds_capabilities(code: u8) -> (r: Option<(Kind, &'static str)>)
    ensures
        match (r, rpd_capabilities_ds_capabilities_spec(code)) {
            (Some((k, l)), Some((ks, ls))) => k == ks && l@ == ls,
            (None, None) => true,
            _ => false,
        },
{
    match code {
        1 => Some((Kind::Leaf(Format::Flags(Flags::RpdCapabilitiesDsCapabilitiesDsScqamInterleaverSupport)), "DsScqamInterleaverSupport")),
        2 => Some((Kind::Leaf(Format::U16), "DsMaxDocsisScQamChannels")),
        3 => Some((Kind::Leaf(Format::U16), "DsMaxMultipleScQamPspSessions")),
        4 => Some((Kind::Leaf(Format::U16), "NumBdrs")),
        5 => Some((Kind::Leaf(Format::U16), "NumBcgs")),
        _ => None,
    }
}

/// The fields of the RpdCapabilitiesResetCapabilities context.
pub open spec fn rpd_capabilities_reset_capabilities_spec(code: u8) -> Option<(Kind, Seq<char>)> {
    match code {
        1 => Some((Kind::Leaf(Format::Choice(Choice::RpdCapabilitiesResetCapabilitiesSoftResetSupported)), "SoftResetSupported"@)),
        2 => Some((Kind::Leaf(Format::Choice(Choice::RpdCapabilitiesResetCapabilitiesNvResetSupported)), "NvResetSupported"@)),
        3 => Some((Kind::Leaf(Format::Choice(Choice::RpdCapabilitiesResetCapabilitiesFactoryResetSupported)), "FactoryResetSupported"@)),
        _ => None,
    }
}

fn rpd_capabilities_reset_capabilities(code: u8) -> (r: Option<(Kind, &'static str)>)
    ensures
        match (r, rpd_capabilities_reset_capabilities_spec(code)) {
            (Some((k, l)), Some((ks, ls))) => k == ks && l@ == ls,
            (None, None) => true,
            _ => false,
        },
{
    match code {
        1 => Some((Kind::Leaf(Format::Choice(Choice::RpdCapabilitiesResetCapabilitiesSoftResetSupported)), "SoftResetSupported")),
        2 => Some((Kind::Leaf(Format::Choice(Choice::RpdCapabilitiesResetCapabilitiesNvResetSupported)), "NvResetSupported")),
        3 => Some((Kind::Leaf(Format::Choice(Choice::RpdCapabilitiesResetCapabilitiesFactoryResetSupported)), "FactoryResetSupported")),
        _ => None,
    }
}

/// The fields of the RpdCapabilitiesSpectrumCaptureCapabilities context.
pub open spec fn rpd_capabilities_spectrum_capture_capabilities_spec(code: u8) -> Option<(Kind, Seq<char>)> {
    match code {
        1 => Some((Kind::Leaf(Format::U8), "NumSacs"@)),
        2 => Some((Kind::Node(Ctx::RpdCapabilitiesSpectrumCaptureCapabilitiesSacCapabilities), "SacCapabilities"@)),
        _ => None,
    }
}

fn rpd_capabilities_spectrum_capture_capabilities(code: u8) -> (r: Option<(Kind, &'static str)>)
    ensures
        match (r, rpd_capabilities_spectrum_capture_capabilities_spec(code)) {
            (Some((k, l)), Some((ks, ls))) => k == ks && l@ == ls,
            (None, None) => true,
            _ => false,
        },
{
    match code {
        1 => Some((Kind::Leaf(Format::U8), "NumSacs")),
        2 => Some((Kind::Node(Ctx::RpdCapabilitiesSpectrumCaptureCapabilitiesSacCapabilities), "SacCapabilities")),
        _ => None,
    }
}

/// The fields of the RpdCapabilitiesSpectrumCaptureCapabilitiesSacCapabilities context.
pub open spec fn rpd_capabilities_spectrum_capture_capabilities_sac_capabilities_spec(code: u8) -> Option<(Kind, Seq<char>)> {
    match code {
        1 => Some((Kind::Leaf(Format::U8), "SacIndex"@)),
        2 => Some((Kind::Leaf(Format::Text), "SacDescription"@)),
        3 => Some((Kind::Leaf(Format::U16), "MaxCaptureSpan"@)),
        4 => Some((Kind::Leaf(Format::U16), "MinimumCaptureFrequency"@)),
        5 => Some((Kind::Leaf(Format::U16), "MaximumCaptureFrequency"@)),
        6 => Some((Kind::Leaf(Format::Flags(Flags::RpdCapabilitiesSpectrumCaptureCapabilitiesSacCapabilitiesSupportedTriggerModes)), "SupportedTriggerModes"@)),
        7 => Some((Kind::Leaf(Format::Flags(Flags::RpdCapabilitiesSpectrumCaptureCapabilitiesSacCapabilitiesSupportedOutputFormats)), "SupportedOutputFormats"@)),
        8 => Some((Kind::Leaf(Format::Flags(Flags::RpdCapabilitiesSpectrumCaptureCapabilitiesSacCapabilitiesSupportedWindowFormats)), "SupportedWindowFormats"@)),
        9 => Some((Kind::Leaf(Format::Choice(Choice::RpdCapabilitiesSpectrumCaptureCapabilitiesSacCapabilitiesSupportsAveraging)), "SupportsAveraging"@)),
        10 => Some((Kind::Leaf(Format::U16), "SupportedAggregationMethods"@)),
        11 => Some((Kind::Leaf(Format::Choice(Choice::RpdCapabilitiesSpectrumCaptureCapabilitiesSacCapabilitiesSupportsSpectrumQualification)), "SupportsSpectrumQualification"@)),
        12 => Some((Kind::Leaf(Format::U16), "MaxNumBins"@)),
        13 => Some((Kind::Leaf(Format::U16), "MinNumBins"@)),
        14 => Some((Kind::Leaf(Format::U16), "MinRepeatPeriod"@)),
        15 => Some((Kind::Leaf(Format::Choice(Choice::RpdCapabilitiesSpectrumCaptureCapabilitiesSacCapabilitiesSupportedTrigChanTypes)), "SupportedTrigChanTypes"@)),
        16 => Some((Kind::Leaf(Format::Choice(Choice::RpdCapabilitiesSpectrumCaptureCapabilitiesSacCapabilitiesPwType)), "PwType"@)),
        17 => Some((Kind::Leaf(Format::U8), "LowestCapturePort"@)),
        18 => Some((Kind::Leaf(Format::U8), "HighestCapturePort"@)),
        19 => Some((Kind::Leaf(Format::Choice(Choice::RpdCapabilitiesSpectrumCaptureCapabilitiesSacCapabilitiesSupportsScanningCapture)), "SupportsScanningCapture"@)),
        20 => Some((Kind::Leaf(Format::U16), "MinScanningRepeatPeriod"@)),
        _ => None,
    }
}

fn rpd_capabilities_spectrum_capture_capabilities_sac_capabilities(code: u8) -> (r: Option<(Kind, &'static str)>)
    ensures
        match (r, rpd_capabilities_spectrum_capture_capabilities_sac_capabilities_spec(code)) {
            (Some((k, l)), Some((ks, ls))) => k == ks && l@ == ls,
            (None, None) => true,
            _ => false,
        },
{
    match code {
        1 => Some((Kind::Leaf(Format::U8), "SacIndex")),
        2 => Some((Kind::Leaf(Format::Text), "SacDescription")),
        3 => Some((Kind::Leaf(Format::U16), "MaxCaptureSpan")),
        4 => Some((Kind::Leaf(Format::U16), "MinimumCaptureFrequency")),
        5 => Some((Kind::Leaf(Format::U16), "MaximumCaptureFrequency")),
        6 => Some((Kind::Leaf(Format::Flags(Flags::RpdCapabilitiesSpectrumCaptureCapabilitiesSacCapabilitiesSupportedTriggerModes)), "SupportedTriggerModes")),
        7 => Some((Kind::Leaf(Format::Flags(Flags::RpdCapabilitiesSpectrumCaptureCapabilitiesSacCapabilitiesSupportedOutputFormats)), "SupportedOutputFormats")),
        8 => Some((Kind::Leaf(Format::Flags(Flags::RpdCapabilitiesSpectrumCaptureCapabilitiesSacCapabilitiesSupportedWindowFormats)), "SupportedWindowFormats")),
        9 => Some((Kind::Leaf(Format::Choice(Choice::RpdCapabilitiesSpectrumCaptureCapabilitiesSacCapabilitiesSupportsAveraging)), "SupportsAveraging")),
        10 => Some((Kind::Leaf(Format::U16), "SupportedAggregationMethods")),
        11 => Some((Kind::Leaf(Format::Choice(Choice::RpdCapabilitiesSpectrumCaptureCapabilitiesSacCapabilitiesSupportsSpectrumQualification)), "SupportsSpectrumQualification")),
        12 => Some((Kind::Leaf(Format::U16), "MaxNumBins")),
        13 => Some((Kind::Leaf(Format::U16), "MinNumBins")),
        14 => Some((Kind::Leaf(Format::U16), "MinRepeatPeriod")),
        15 => Some((Kind::Leaf(Format::Choice(Choice::RpdCapabilitiesSpectrumCaptureCapabilitiesSacCapabilitiesSupportedTrigChanTypes)), "SupportedTrigChanTypes")),
        16 => Some((Kind::Leaf(Format::Choice(Choice::RpdCapabilitiesSpectrumCaptureCapabilitiesSacCapabilitiesPwType)), "PwType")),
        17 => Some((Kind::Leaf(Format::U8), "LowestCapturePort")),
        18 => Some((Kind::Leaf(Format::U8), "HighestCapturePort")),
        19 => Some((Kind::Leaf(Format::Choice(Choice::RpdCapabilitiesSpectrumCaptureCapabilitiesSacCapabilitiesSupportsScanningCapture)), "SupportsScanningCapture")),
        20 => Some((Kind::Leaf(Format::U16), "MinScanningRepeatPeriod")),
        _ => None,
    }
}

/// The fields of the RpdCapabilitiesRfmCapabilities context.
pub open spec fn rpd_capabilities_rfm_capabilities_spec(code: u8) -> Option<(Kind, Seq<char>)> {
    match code {
        1 => Some((Kind::Leaf(Format::Choice(Choice::RpdCapabilitiesRfmCapabilitiesSupportsRfmManagement)), "SupportsRfmManagement"@)),
        2 => Some((Kind::Leaf(Format::U16), "NumNodeRfPorts"@)),
        3 => Some((Kind::Leaf(Format::Choice(Choice::RpdCapabilitiesRfmCapabilitiesSupportsDsCfgRfmGain)), "SupportsDsCfgRfmGain"@)),
        4 => Some((Kind::Leaf(Format::U16), "MinDsCfgRfmGain"@)),
        5 => Some((Kind::Leaf(Format::U16), "MaxDsCfgRfmGain"@)),
        6 => Some((Kind::Leaf(Format::Choice(Choice::RpdCapabilitiesRfmCapabilitiesSupportsUsCfgRfmGain)), "SupportsUsCfgRfmGain"@)),
        7 => Some((Kind::Leaf(Format::U16), "MinUsCfgRfmGain"@)),
        8 => Some((Kind::Leaf(Format::U16), "MaxUsCfgRfmGain"@)),
        9 => Some((Kind::Leaf(Format::Choice(Choice::RpdCapabilitiesRfmCapabilitiesSupportsRfmDsTiltConfig)), "SupportsRfmDsTiltConfig"@)),
        10 => Some((Kind::Leaf(Format::U16), "MinRfmDsTilt"@)),
        11 => Some((Kind::Leaf(Format::U16), "MaxRfmDsTilt"@)),
        12 => Some((Kind::Leaf(Format::U16), "MaxDsPowerGainFunctions"@)),
        13 => Some((Kind::Leaf(Format::U16), "MaxUsPowerGainFunctions"@)),
        14 => Some((Kind::Leaf(Format::U16), "MaxDsTiltCtrlFunctions"@)),
        15 => Some((Kind::Leaf(Format::U32), "MinRfmDsFreq"@)),
        16 => Some((Kind::Leaf(Format::U32), "MaxRfmDsFreq"@)),
        17 => Some((Kind::Node(Ctx::RpdCapabilitiesRfmCapabilitiesNodeRfPortCapabilities), "NodeRfPortCapabilities"@)),
        _ => None,
    }
}

fn rpd_capabilities_rfm_capabilities(code: u8) -> (r: Option<(Kind, &'static str)>)
    ensures
        match (r, rpd_capabilities_rfm_capabilities_spec(code)) {
            (Some((k, l)), Some((ks, ls))) => k == ks && l@ == ls,
            (None, None) => true,
            _ => false,
        },
{
    match code {
        1 => Some((Kind::Leaf(Format::Choice(Choice::RpdCapabilitiesRfmCapabilitiesSupportsRfmManagement)), "SupportsRfmManagement")),
        2 => Some((Kind::Leaf(Format::U16), "NumNodeRfPorts")),
        3 => Some((Kind::Leaf(Format::Choice(Choice::RpdCapabilitiesRfmCapabilitiesSupportsDsCfgRfmGain)), "SupportsDsCfgRfmGain")),
        4 => Some((Kind::Leaf(Format::U16), "MinDsCfgRfmGain")),
        5 => Some((Kind::Leaf(Format::U16), "MaxDsCfgRfmGain")),
        6 => Some((Kind::Leaf(Format::Choice(Choice::RpdCapabilitiesRfmCapabilitiesSupportsUsCfgRfmGain)), "SupportsUsCfgRfmGain")),
        7 => Some((Kind::Leaf(Format::U16), "MinUsCfgRfmGain")),
        8 => Some((Kind::Leaf(Format::U16), "MaxUsCfgRfmGain")),
        9 => Some((Kind::Leaf(Format::Choice(Choice::RpdCapabilitiesRfmCapabilitiesSupportsRfmDsTiltConfig)), "SupportsRfmDsTiltConfig")),
        10 => Some((Kind::Leaf(Format::U16), "MinRfmDsTilt")),
        11 => Some((Kind::Leaf(Format::U16), "MaxRfmDsTilt")),
        12 => Some((Kind::Leaf(Format::U16), "MaxDsPowerGainFunctions")),
        13 => Some((Kind::Leaf(Format::U16), "MaxUsPowerGainFunctions")),
        14 => Some((Kind::Leaf(Format::U16), "MaxDsTiltCtrlFunctions")),
        15 => Some((Kind::Leaf(Format::U32), "MinRfmDsFreq")),
        16 => Some((Kind::Leaf(Format::U32), "MaxRfmDsFreq")),
        17 => Some((Kind::Node(Ctx::RpdCapabilitiesRfmCapabilitiesNodeRfPortCapabilities), "NodeRfPortCapabilities")),
        _ => None,
    }
}

/// The fields of the RpdCapabilitiesRfmCapabilitiesNodeRfPortCapabilities context.
pub open spec fn rpd_capabilities_rfm_capabilities_node_rf_port_capabilities_spec(code: u8) -> Option<(Kind, Seq<char>)> {
    match code {
        1 => Some((Kind::Leaf(Format::U8), "NodeRfPortIndex"@)),
        2 => Some((Kind::Leaf(Format::Text), "NodeRfPortManufDesc"@)),
        3 => Some((Kind::Leaf(Format::U8), "RpdUsRfPortMap"@)),
        4 => Some((Kind::Leaf(Format::U8), "RpdDsRfPortMap"@)),
        5 => Some((Kind::Leaf(Format::U8), "RfmUsGainCtrlIndex"@)),
        6 => Some((Kind::Leaf(Format::U8), "RfmDsGainCtrlIndex"@)),
        7 => Some((Kind::Leaf(Format::U8), "RfmDsTiltCtrlIndex"@)),
        8 => Some((Kind::Leaf(Format::Text), "NodeRfPortOperatorLabel"@)),
        _ => None,
    }
}

fn rpd_capabilities_rfm_capabilities_node_rf_port_capabilities(code: u8) -> (r: Option<(Kind, &'static str)>)
    ensures
        match (r, rpd_capabilities_rfm_capabilities_node_rf_port_capabilities_spec(code)) {
            (Some((k, l)), Some((ks, ls))) => k == ks && l@ == ls,
            (None, None) => true,
            _ => false,
        },
{
    match code {
        1 => Some((Kind::Leaf(Format::U8), "NodeRfPortIndex")),
        2 => Some((Kind::Leaf(Format::Text), "NodeRfPortManufDesc")),
        3 => Some((Kind::Leaf(Format::U8), "RpdUsRfPortMap")),
        4 => Some((Kind::Leaf(Format::U8), "RpdDsRfPortMap")),
        5 => Some((Kind::Leaf(Format::U8), "RfmUsGainCtrlIndex")),
        6 => Some((Kind::Leaf(Format::U8), "RfmDsGainCtrlIndex")),
        7 => Some((Kind::Leaf(Format::U8), "RfmDsTiltCtrlIndex")),
        8 => Some((Kind::Leaf(Format::Text), "NodeRfPortOperatorLabel")),
        _ => None,
    }
}

/// The fields of the RpdCapabilitiesUpstreamCapabilities context.
pub open spec fn rpd_capabilities_upstream_capabilities_spec(code: u8) -> Option<(Kind, Seq<char>)> {
    match code {
        1 => Some((Kind::Leaf(Format::U32), "MaxUsFrequency"@)),
        2 => Some((Kind::Leaf(Format::U32), "MinUsFrequency"@)),
        3 => Some((Kind::Leaf(Format::U16), "MaxUnicastSids"@)),
        _ => None,
    }
}

fn rpd_capabilities_upstream_capabilities(code: u8) -> (r: Option<(Kind, &'static str)>)
    ensures
        match (r, rpd_capabilities_upstream_capabilities_spec(code)) {
            (Some((k, l)), Some((ks, ls))) => k == ks && l@ == ls,
            (None, None) => true,
            _ => false,
        },
{
    match code {
        1 => Some((Kind::Leaf(Format::U32), "MaxUsFrequency")),
        2 => Some((Kind::Leaf(Format::U32), "MinUsFrequency")),
        3 => Some((Kind::Leaf(Format::U16), "MaxUnicastSids")),
        _ => None,
    }
}

/// The fields of the RpdCapabilitiesPmtudCapabilities context.
pub open spec fn rpd_capabilities_pmtud_capabilities_spec(code: u8) -> Option<(Kind, Seq<char>)> {
    match code {
        1 => Some((Kind::Leaf(Format::Choice(Choice::RpdCapabilitiesPmtudCapabilitiesSupportsIcmpBasedPmtud)), "SupportsIcmpBasedPmtud"@)),
        2 => Some((Kind::Leaf(Format::Choice(Choice::RpdCapabilitiesPmtudCapabilitiesSupportsPacketizationBasedPmtud)), "SupportsPacketizationBasedPmtud"@)),
        _ => None,
    }
}

fn rpd_capabilities_pmtud_capabilities(code: u8) -> (r: Option<(Kind, &'static str)>)
    ensures
        match (r, rpd_capabilities_pmtud_capabilities_spec(code)) {
            (Some((k, l)), Some((ks, ls))) => k == ks && l@ == ls,
            (None, None) => true,
            _ => false,
        },
{
    match code {
        1 => Some((Kind::Leaf(Format::Choice(Choice::RpdCapabilitiesPmtudCapabilitiesSupportsIcmpBasedPmtud)), "SupportsIcmpBasedPmtud")),
        2 => Some((Kind::Leaf(Format::Choice(Choice::RpdCapabilitiesPmtudCapabilitiesSupportsPacketizationBasedPmtud)), "SupportsPacketizationBasedPmtud")),
        _ => None,
    }
}

/// The fields of the StaticPwConfig context.
pub open spec fn static_pw_config_spec(code: u8) -> Option<(Kind, Seq<char>)> {
    match code {
        1 => Some((Kind::Node(Ctx::StaticPwConfigFwdStaticPwConfig), "FwdStaticPwConfig"@)),
        2 => Some((Kind::Node(Ctx::StaticPwConfigRetStaticPwConfig), "RetStaticPwConfig"@)),
        3 => Some((Kind::Node(Ctx::StaticPwConfigCommonStaticPwConfig), "CommonStaticPwConfig"@)),
        _ => None,
    }
}

fn static_pw_config(code: u8) -> (r: Option<(Kind, &'static str)>)
    ensures
        match (r, static_pw_config_spec(code)) {
            (Some((k, l)), Some((ks, ls))) => k == ks && l@ == ls,
            (None, None) => true,
            _ => false,
        },
{
    match code {
        1 => Some((Kind::Node(Ctx::StaticPwConfigFwdStaticPwConfig), "FwdStaticPwConfig")),
        2 => Some((Kind::Node(Ctx::StaticPwConfigRetStaticPwConfig), "RetStaticPwConfig")),
        3 => Some((Kind::Node(Ctx::StaticPwConfigCommonStaticPwConfig), "CommonStaticPwConfig")),
        _ => None,
    }
}

/// The fields of the StaticPwConfigFwdStaticPwConfig context.
pub open spec fn static_pw_config_fwd_static_pw_config_spec(code: u8) -> Option<(Kind, Seq<char>)> {
    match code {
        1 => Some((Kind::Leaf(Format::U16), "Index"@)),
        2 => Some((Kind::Leaf(Format::Hex), "CcapCoreOwner"@)),
        3 => Some((Kind::Leaf(Format::Ip), "GroupAddress"@)),
        4 => Some((Kind::Leaf(Format::Ip), "SourceAddress"@)),
        5 => Some((Kind::Leaf(Format::Choice(Choice::StaticPwConfigFwdStaticPwConfigIsUnicast)), "IsUnicast"@)),
        _ => None,
    }
}

fn static_pw_config_fwd_static_pw_config(code: u8) -> (r: Option<(Kind, &'static str)>)
    ensures
        match (r, static_pw_config_fwd_static_pw_config_spec(code)) {
            (Some((k, l)), Some((ks, ls))) => k == ks && l@ == ls,
            (None, None) => true,
            _ => false,
        },
{
    match code {
        1 => Some((Kind::Leaf(Format::U16), "Index")),
        2 => Some((Kind::Leaf(Format::Hex), "CcapCoreOwner")),
        3 => Some((Kind::Leaf(Format::Ip), "GroupAddress")),
        4 => Some((Kind::Leaf(Format::Ip), "SourceAddress")),
        5 => Some((Kind::Leaf(Format::Choice(Choice::StaticPwConfigFwdStaticPwConfigIsUnicast)), "IsUnicast")),
        _ => None,
    }
}

/// The fields of the StaticPwConfigRetStaticPwConfig context.
pub open spec fn static_pw_config_ret_static_pw_config_spec(code: u8) -> Option<(Kind, Seq<char>)> {
    match code {
        1 => Some((Kind::Leaf(Format::U16), "Index"@)),
        2 => Some((Kind::Leaf(Format::Hex), "CcapCoreOwner"@)),
        3 => Some((Kind::Leaf(Format::Ip), "DestAddress"@)),
        4 => Some((Kind::Leaf(Format::U16), "MtuSize"@)),
        5 => Some((Kind::Leaf(Format::U8), "UsPhbId"@)),
        _ => None,
    }
}

fn static_pw_config_ret_static_pw_config(code: u8) -> (r: Option<(Kind, &'static str)>)
    ensures
        match (r, static_pw_config_ret_static_pw_config_spec(code)) {
            (Some((k, l)), Some((ks, ls))) => k == ks && l@ == ls,
            (None, None) => true,
            _ => false,
        },
{
    match code {
        1 => Some((Kind::Leaf(Format::U16), "Index")),
        2 => Some((Kind::Leaf(Format::Hex), "CcapCoreOwner")),
        3 => Some((Kind::Leaf(Format::Ip), "DestAddress")),
        4 => Some((Kind::Leaf(Format::U16), "MtuSize")),
        5 => Some((Kind::Leaf(Format::U8), "UsPhbId")),
        _ => None,
    }
}

/// The fields of the StaticPwConfigCommonStaticPwConfig context.
pub open spec fn static_pw_config_common_static_pw_config_spec(code: u8) -> Option<(Kind, Seq<char>)> {
    match code {
        1 => Some((Kind::Leaf(Format::U8), "Direction"@)),
        2 => Some((Kind::Leaf(Format::U16), "Index"@)),
        4 => Some((Kind::Leaf(Format::NamedU16(Named::PwType)), "PwType"@)),
        5 => Some((Kind::Leaf(Format::NamedU16(Named::DepiPwSubtype)), "DepiPwSubtype"@)),
        6 => Some((Kind::Leaf(Format::NamedU16(Named::L2SublayerType)), "L2SublayerType"@)),
        7 => Some((Kind::Leaf(Format::NamedU16(Named::L2SublayerSubType)), "DepiL2SublayerSubtype"@)),
        8 => Some((Kind::Leaf(Format::U32), "SessionId"@)),
        9 => Some((Kind::Leaf(Format::Flags(Flags::StaticPwConfigCommonStaticPwConfigCircuitStatus)), "CircuitStatus"@)),
        10 => Some((Kind::Leaf(Format::U8), "RpdEnetPortIndex"@)),
        11 => Some((Kind::Node(Ctx::StaticPwConfigCommonStaticPwConfigPwAssociation), "PwAssociation"@)),
        12 => Some((Kind::Leaf(Format::Choice(Choice::StaticPwConfigCommonStaticPwConfigEnableStatusNotification)), "EnableStatusNotification"@)),
        _ => None,
    }
}

fn static_pw_config_common_static_pw_config(code: u8) -> (r: Option<(Kind, &'static str)>)
    ensures
        match (r, static_pw_config_common_static_pw_config_spec(code)) {
            (Some((k, l)), Some((ks, ls))) => k == ks && l@ == ls,
            (None, None) => true,
            _ => false,
        },
{
    match code {
        1 => Some((Kind::Leaf(Format::U8), "Direction")),
        2 => Some((Kind::Leaf(Format::U16), "Index")),
        4 => Some((Kind::Leaf(Format::NamedU16(Named::PwType)), "PwType")),
        5 => Some((Kind::Leaf(Format::NamedU16(Named::DepiPwSubtype)), "DepiPwSubtype")),
        6 => Some((Kind::Leaf(Format::NamedU16(Named::L2SublayerType)), "L2SublayerType")),
        7 => Some((Kind::Leaf(Format::NamedU16(Named::L2SublayerSubType)), "DepiL2SublayerSubtype")),
        8 => Some((Kind::Leaf(Format::U32), "SessionId")),
        9 => Some((Kind::Leaf(Format::Flags(Flags::StaticPwConfigCommonStaticPwConfigCircuitStatus)), "CircuitStatus")),
        10 => Some((Kind::Leaf(Format::U8), "RpdEnetPortIndex")),
        11 => Some((Kind::Node(Ctx::StaticPwConfigCommonStaticPwConfigPwAssociation), "PwAssociation")),
        12 => Some((Kind::Leaf(Format::Choice(Choice::StaticPwConfigCommonStaticPwConfigEnableStatusNotification)), "EnableStatusNotification")),
        _ => None,
    }
}

/// The fields of the StaticPwConfigCommonStaticPwConfigPwAssociation context.
pub open spec fn static_pw_config_common_static_pw_config_pw_association_spec(code: u8) -> Option<(Kind, Seq<char>)> {
    match code {
        1 => Some((Kind::Leaf(Format::U8), "Index"@)),
        2 => Some((Kind::Node(Ctx::StaticPwConfigCommonStaticPwConfigPwAssociationChannelSelector), "ChannelSelector"@)),
        _ => None,
    }
}

fn static_pw_config_common_static_pw_config_pw_association(code: u8) -> (r: Option<(Kind, &'static str)>)
    ensures
        match (r, static_pw_config_common_static_pw_config_pw_association_spec(code)) {
            (Some((k, l)), Some((ks, ls))) => k == ks && l@ == ls,
            (None, None) => true,
            _ => false,
        },
{
    match code {
        1 => Some((Kind::Leaf(Format::U8), "Index")),
        2 => Some((Kind::Node(Ctx::StaticPwConfigCommonStaticPwConfigPwAssociationChannelSelector), "ChannelSelector")),
        _ => None,
    }
}

/// The fields of the StaticPwConfigCommonStaticPwConfigPwAssociationChannelSelector context.
pub open spec fn static_pw_config_common_static_pw_config_pw_association_channel_selector_spec(code: u8) -> Option<(Kind, Seq<char>)> {
    match code {
        1 => Some((Kind::Leaf(Format::U8), "RfPortIndex"@)),
        2 => Some((Kind::Leaf(Format::NamedU8(Named::ChannelType)), "ChannelType"@)),
        3 => Some((Kind::Leaf(Format::U8), "ChannelIndex"@)),
        _ => None,
    }
}

fn static_pw_config_common_static_pw_config_pw_association_channel_selector(code: u8) -> (r: Option<(Kind, &'static str)>)
    ensures
        match (r, static_pw_config_common_static_pw_config_pw_association_channel_selector_spec(code)) {
            (Some((k, l)), Some((ks, ls))) => k == ks && l@ == ls,
            (None, None) => true,
            _ => false,
        },
{
    match code {
        1 => Some((Kind::Leaf(Format::U8), "RfPortIndex")),
        2 => Some((Kind::Leaf(Format::NamedU8(Named::ChannelType)), "ChannelType")),
        3 => Some((Kind::Leaf(Format::U8), "ChannelIndex")),
        _ => None,
    }
}

/// The fields of the CcapCoreIdentification context.
pub open spec fn ccap_core_identification_spec(code: u8) -> Option<(Kind, Seq<char>)> {
    match code {
        1 => Some((Kind::Leaf(Format::U8), "Index"@)),
        2 => Some((Kind::Leaf(Format::Hex), "CoreId"@)),
        3 => Some((Kind::Leaf(Format::Ip), "CoreIPAddress"@)),
        4 => Some((Kind::Leaf(Format::U8), "IsPrincipal"@)),
        5 => Some((Kind::Leaf(Format::Text), "CoreName"@)),
        6 => Some((Kind::Leaf(Format::U16), "VendorId"@)),
        7 => Some((Kind::Leaf(Format::NamedU8(Named::CoreMode)), "CoreMode"@)),
        8 => Some((Kind::Leaf(Format::U8), "InitialConfigurationComplete"@)),
        9 => Some((Kind::Leaf(Format::U8), "MoveToOperational"@)),
        10 => Some((Kind::Leaf(Format::Flags(Flags::CcapCoreIdentificationCoreFunction)), "CoreFunction"@)),
        11 => Some((Kind::Leaf(Format::U8), "ResourceSetIndex"@)),
        12 => Some((Kind::Leaf(Format::Note), "(Reserved)"@)),
        13 => Some((Kind::Leaf(Format::Choice(Choice::CcapCoreIdentificationGcpBackupConnectionConfig)), "GcpBackupConnectionConfig"@)),
        14 => Some((Kind::Node(Ctx::CcapCoreIdentificationCandidateBackupCoreTable), "CandidateBackupCoreTable"@)),
        _ => None,
    }
}

fn ccap_core_identification(code: u8) -> (r: Option<(Kind, &'static str)>)
    ensures
        match (r, ccap_core_identification_spec(code)) {
            (Some((k, l)), Some((ks, ls))) => k == ks && l@ == ls,
            (None, None) => true,
            _ => false,
        },
{
    match code {
        1 => Some((Kind::Leaf(Format::U8), "Index")),
        2 => Some((Kind::Leaf(Format::Hex), "CoreId")),
        3 => Some((Kind::Leaf(Format::Ip), "CoreIPAddress")),
        4 => Some((Kind::Leaf(Format::U8), "IsPrincipal")),
        5 => Some((Kind::Leaf(Format::Text), "CoreName")),
        6 => Some((Kind::Leaf(Format::U16), "VendorId")),
        7 => Some((Kind::Leaf(Format::NamedU8(Named::CoreMode)), "CoreMode")),
        8 => Some((Kind::Leaf(Format::U8), "InitialConfigurationComplete")),
        9 => Some((Kind::Leaf(Format::U8), "MoveToOperational")),
        10 => Some((Kind::Leaf(Format::Flags(Flags::CcapCoreIdentificationCoreFunction)), "CoreFunction")),
        11 => Some((Kind::Leaf(Format::U8), "ResourceSetIndex")),
        12 => Some((Kind::Leaf(Format::Note), "(Reserved)")),
        13 => Some((Kind::Leaf(Format::Choice(Choice::CcapCoreIdentificationGcpBackupConnectionConfig)), "GcpBackupConnectionConfig")),
        14 => Some((Kind::Node(Ctx::CcapCoreIdentificationCandidateBackupCoreTable), "CandidateBackupCoreTable")),
        _ => None,
    }
}

/// The fields of the CcapCoreIdentificationCandidateBackupCoreTable context.
pub open spec fn ccap_core_identification_candidate_backup_core_table_spec(code: u8) -> Option<(Kind, Seq<char>)> {
    match code {
        1 => Some((Kind::Leaf(Format::U8), "Index"@)),
        2 => Some((Kind::Leaf(Format::Ip), "BackupCoreIpAddress"@)),
        _ => None,
    }
}

fn ccap_core_identification_candidate_backup_core_table(code: u8) -> (r: Option<(Kind, &'static str)>)
    ensures
        match (r, ccap_core_identification_candidate_backup_core_table_spec(code)) {
            (Some((k, l)), Some((ks, ls))) => k == ks && l@ == ls,
            (None, None) => true,
            _ => false,
        },
{
    match code {
        1 => Some((Kind::Leaf(Format::U8), "Index")),
        2 => Some((Kind::Leaf(Format::Ip), "BackupCoreIpAddress")),
        _ => None,
    }
}

/// The fields of the DsRfPort context.
pub open spec fn ds_rf_port_spec(code: u8) -> Option<(Kind, Seq<char>)> {
    match code {
        2 => Some((Kind::Leaf(Format::NamedU8(Named::AdminStateType)), "AdminState"@)),
        3 => Some((Kind::Leaf(Format::U16), "BasePower"@)),
        4 => Some((Kind::Leaf(Format::Choice(Choice::DsRfPortRfMute)), "RfMute"@)),
        5 => Some((Kind::Leaf(Format::U16), "TiltValue"@)),
        6 => Some((Kind::Leaf(Format::U32), "TiltMaximumFrequency"@)),
        7 => Some((Kind::Node(Ctx::DsRfPortDedicatedToneConfig), "DedicatedToneConfig"@)),
        8 => Some((Kind::Leaf(Format::U16), "FdxAllocSpectrumWidth"@)),
        _ => None,
    }
}

fn ds_rf_port(code: u8) -> (r: Option<(Kind, &'static str)>)
    ensures
        match (r, ds_rf_port_spec(code)) {
            (Some((k, l)), Some((ks, ls))) => k == ks && l@ == ls,
            (None, None) => true,
            _ => false,
        },
{
    match code {
        2 => Some((Kind::Leaf(Format::NamedU8(Named::AdminStateType)), "AdminState")),
        3 => Some((Kind::Leaf(Format::U16), "BasePower")),
        4 => Some((Kind::Leaf(Format::Choice(Choice::DsRfPortRfMute)), "RfMute")),
        5 => Some((Kind::Leaf(Format::U16), "TiltValue")),
        6 => Some((Kind::Leaf(Format::U32), "TiltMaximumFrequency")),
        7 => Some((Kind::Node(Ctx::DsRfPortDedicatedToneConfig), "DedicatedToneConfig")),
        8 => Some((Kind::Leaf(Format::U16), "FdxAllocSpectrumWidth")),
        _ => None,
    }
}

/// The fields of the DsRfPortDedicatedToneConfig context.
pub open spec fn ds_rf_port_dedicated_tone_config_spec(code: u8) -> Option<(Kind, Seq<char>)> {
    match code {
        1 => Some((Kind::Leaf(Format::U8), "ToneIndex"@)),
        2 => Some((Kind::Leaf(Format::U32), "ToneFrequency"@)),
        3 => Some((Kind::Leaf(Format::U16), "TonePowerAdjust"@)),
        4 => Some((Kind::Leaf(Format::Choice(Choice::DsRfPortDedicatedToneConfigRfMute)), "RfMute"@)),
        5 => Some((Kind::Leaf(Format::U8), "FrequencyFraction"@)),
        _ => None,
    }
}

fn ds_rf_port_dedicated_tone_config(code: u8) -> (r: Option<(Kind, &'static str)>)
    ensures
        match (r, ds_rf_port_dedicated_tone_config_spec(code)) {
            (Some((k, l)), Some((ks, ls))) => k == ks && l@ == ls,
            (None, None) => true,
            _ => false,
        },
{
    match code {
        1 => Some((Kind::Leaf(Format::U8), "ToneIndex")),
        2 => Some((Kind::Leaf(Format::U32), "ToneFrequency")),
        3 => Some((Kind::Leaf(Format::U16), "TonePowerAdjust")),
        4 => Some((Kind::Leaf(Format::Choice(Choice::DsRfPortDedicatedToneConfigRfMute)), "RfMute")),
        5 => Some((Kind::Leaf(Format::U8), "FrequencyFraction")),
        _ => None,
    }
}

/// The fields of the DsScQamChannelConfig context.
pub open spec fn ds_sc_qam_channel_config_spec(code: u8) -> Option<(Kind, Seq<char>)> {
    match code {
        1 => Some((Kind::Leaf(Format::NamedU8(Named::AdminStateType)), "AdminState"@)),
        2 => Some((Kind::Leaf(Format::Hex), "CcapCoreOwner"@)),
        3 => Some((Kind::Leaf(Format::Choice(Choice::DsScQamChannelConfigRfMute)), "RfMute"@)),
        4 => Some((Kind::Leaf(Format::U16), "TSID"@)),
        5 => Some((Kind::Leaf(Format::U16), "CenterFrequency"@)),
        6 => Some((Kind::Leaf(Format::NamedU8(Named::OperationalMode)), "OperationaMode"@)),
        7 => Some((Kind::Leaf(Format::NamedU8(Named::DsModulationType)), "Modulation"@)),
        8 => Some((Kind::Leaf(Format::NamedU8(Named::InterleaverDepth)), "InterleaverDepth"@)),
        9 => Some((Kind::Leaf(Format::NamedU8(Named::DsInterleaverType)), "Annex"@)),
        10 => Some((Kind::Leaf(Format::U8), "SyncInterval"@)),
        11 => Some((Kind::Leaf(Format::Mac), "SyncMacAddress"@)),
        12 => Some((Kind::Leaf(Format::U16), "SymbolFrequencyDenominator"@)),
        13 => Some((Kind::Leaf(Format::U16), "SymbolFrequencyNumerator"@)),
        14 => Some((Kind::Leaf(Format::U32), "SymbolRateOverride"@)),
        15 => Some((Kind::Leaf(Format::Choice(Choice::DsScQamChannelConfigSpectrumInversionEnabled)), "SpectrumInversionEnabled"@)),
        16 => Some((Kind::Leaf(Format::U16), "PowerAdjust"@)),
        17 => Some((Kind::Leaf(Format::Choice(Choice::DsScQamChannelConfigBcastChanGroup)), "BcastChanGroup"@)),
        _ => None,
    }
}

fn ds_sc_qam_channel_config(code: u8) -> (r: Option<(Kind, &'static str)>)
    ensures
        match (r, ds_sc_qam_channel_config_spec(code)) {
            (Some((k, l)), Some((ks, ls))) => k == ks && l@ == ls,
            (None, None) => true,
            _ => false,
        },
{
    match code {
        1 => Some((Kind::Leaf(Format::NamedU8(Named::AdminStateType)), "AdminState")),
        2 => Some((Kind::Leaf(Format::Hex), "CcapCoreOwner")),
        3 => Some((Kind::Leaf(Format::Choice(Choice::DsScQamChannelConfigRfMute)), "RfMute")),
        4 => Some((Kind::Leaf(Format::U16), "TSID")),
        5 => Some((Kind::Leaf(Format::U16), "CenterFrequency")),
        6 => Some((Kind::Leaf(Format::NamedU8(Named::OperationalMode)), "OperationaMode")),
        7 => Some((Kind::Leaf(Format::NamedU8(Named::DsModulationType)), "Modulation")),
        8 => Some((Kind::Leaf(Format::NamedU8(Named::InterleaverDepth)), "InterleaverDepth")),
        9 => Some((Kind::Leaf(Format::NamedU8(Named::DsInterleaverType)), "Annex")),
        10 => Some((Kind::Leaf(Format::U8), "SyncInterval")),
        11 => Some((Kind::Leaf(Format::Mac), "SyncMacAddress")),
        12 => Some((Kind::Leaf(Format::U16), "SymbolFrequencyDenominator")),
        13 => Some((Kind::Leaf(Format::U16), "SymbolFrequencyNumerator")),
        14 => Some((Kind::Leaf(Format::U32), "SymbolRateOverride")),
        15 => Some((Kind::Leaf(Format::Choice(Choice::DsScQamChannelConfigSpectrumInversionEnabled)), "SpectrumInversionEnabled")),
        16 => Some((Kind::Leaf(Format::U16), "PowerAdjust")),
        17 => Some((Kind::Leaf(Format::Choice(Choice::DsScQamChannelConfigBcastChanGroup)), "BcastChanGroup")),
        _ => None,
    }
}

/// The fields of the DsOfdmChannelConfig context.
pub open spec fn ds_ofdm_channel_config_spec(code: u8) -> Option<(Kind, Seq<char>)> {
    match code {
        1 => Some((Kind::Leaf(Format::NamedU8(Named::AdminStateType)), "AdminState"@)),
        2 => Some((Kind::Leaf(Format::Hex), "CcapCoreOwner"@)),
        3 => Some((Kind::Leaf(Format::Choice(Choice::DsOfdmChannelConfigRfMute)), "RfMute"@)),
        4 => Some((Kind::Leaf(Format::U32), "SubcarrierZeroFreq"@)),
        5 => Some((Kind::Leaf(Format::U16), "FirstActiveSubcarrier"@)),
        6 => Some((Kind::Leaf(Format::U16), "LastActiveSubcarrier"@)),
        7 => Some((Kind::Leaf(Format::U16), "NumActiveSubcarriers"@)),
        8 => Some((Kind::Leaf(Format::NamedU8(Named::CyclicPrefix)), "CyclicPrefix"@)),
        9 => Some((Kind::Leaf(Format::NamedU8(Named::RollOffPeriodType)), "RollOffPeriod"@)),
        10 => Some((Kind::Leaf(Format::U32), "PlcFreq"@)),
        11 => Some((Kind::Leaf(Format::U8), "TimeInterleaverDepth"@)),
        12 => Some((Kind::Leaf(Format::Choice(Choice::DsOfdmChannelConfigSubcarrierSpacing)), "SubcarrierSpacing"@)),
        13 => Some((Kind::Node(Ctx::DsOfdmChannelConfigDsOfdmSubcarrierType), "DsOfdmSubcarrierType"@)),
        14 => Some((Kind::Leaf(Format::U16), "PowerAdjust"@)),
        _ => None,
    }
}

fn ds_ofdm_channel_config(code: u8) -> (r: Option<(Kind, &'static str)>)
    ensures
        match (r, ds_ofdm_channel_config_spec(code)) {
            (Some((k, l)), Some((ks, ls))) => k == ks && l@ == ls,
            (None, None) => true,
            _ => false,
        },
{
    match code {
        1 => Some((Kind::Leaf(Format::NamedU8(Named::AdminStateType)), "AdminState")),
        2 => Some((Kind::Leaf(Format::Hex), "CcapCoreOwner")),
        3 => Some((Kind::Leaf(Format::Choice(Choice::DsOfdmChannelConfigRfMute)), "RfMute")),
        4 => Some((Kind::Leaf(Format::U32), "SubcarrierZeroFreq")),
        5 => Some((Kind::Leaf(Format::U16), "FirstActiveSubcarrier")),
        6 => Some((Kind::Leaf(Format::U16), "LastActiveSubcarrier")),
        7 => Some((Kind::Leaf(Format::U16), "NumActiveSubcarriers")),
        8 => Some((Kind::Leaf(Format::NamedU8(Named::CyclicPrefix)), "CyclicPrefix")),
        9 => Some((Kind::Leaf(Format::NamedU8(Named::RollOffPeriodType)), "RollOffPeriod")),
        10 => Some((Kind::Leaf(Format::U32), "PlcFreq")),
        11 => Some((Kind::Leaf(Format::U8), "TimeInterleaverDepth")),
        12 => Some((Kind::Leaf(Format::Choice(Choice::DsOfdmChannelConfigSubcarrierSpacing)), "SubcarrierSpacing")),
        13 => Some((Kind::Node(Ctx::DsOfdmChannelConfigDsOfdmSubcarrierType), "DsOfdmSubcarrierType")),
        14 => Some((Kind::Leaf(Format::U16), "PowerAdjust")),
        _ => None,
    }
}

/// The fields of the DsOfdmChannelConfigDsOfdmSubcarrierType context.
pub open spec fn ds_ofdm_channel_config_ds_ofdm_subcarrier_type_spec(code: u8) -> Option<(Kind, Seq<char>)> {
    match code {
        1 => Some((Kind::Leaf(Format::U16), "StartSubcarrierId"@)),
        2 => Some((Kind::Leaf(Format::U16), "EndSubcarrierId"@)),
        3 => Some((Kind::Leaf(Format::NamedU8(Named::SubcarrierUsage)), "SubcarrierUsage"@)),
        _ => None,
    }
}

fn ds_ofdm_channel_config_ds_ofdm_subcarrier_type(code: u8) -> (r: Option<(Kind, &'static str)>)
    ensures
        match (r, ds_ofdm_channel_config_ds_ofdm_subcarrier_type_spec(code)) {
            (Some((k, l)), Some((ks, ls))) => k == ks && l@ == ls,
            (None, None) => true,
            _ => false,
        },
{
    match code {
        1 => Some((Kind::Leaf(Format::U16), "StartSubcarrierId")),
        2 => Some((Kind::Leaf(Format::U16), "EndSubcarrierId")),
        3 => Some((Kind::Leaf(Format::NamedU8(Named::SubcarrierUsage)), "SubcarrierUsage")),
        _ => None,
    }
}

/// The fields of the DsOfdmProfile context.
pub open spec fn ds_ofdm_profile_spec(code: u8) -> Option<(Kind, Seq<char>)> {
    match code {
        1 => Some((Kind::Leaf(Format::U8), "ProfileId"@)),
        2 => Some((Kind::Node(Ctx::DsOfdmProfileDsOfdmSubcarrierModulation), "DsOfdmSubcarrierModulation"@)),
        _ => None,
    }
}

fn ds_ofdm_profile(code: u8) -> (r: Option<(Kind, &'static str)>)
    ensures
        match (r, ds_ofdm_profile_spec(code)) {
            (Some((k, l)), Some((ks, ls))) => k == ks && l@ == ls,
            (None, None) => true,
            _ => false,
        },
{
    match code {
        1 => Some((Kind::Leaf(Format::U8), "ProfileId")),
        2 => Some((Kind::Node(Ctx::DsOfdmProfileDsOfdmSubcarrierModulation), "DsOfdmSubcarrierModulation")),
        _ => None,
    }
}

/// The fields of the DsOfdmProfileDsOfdmSubcarrierModulation context.
pub open spec fn ds_ofdm_profile_ds_ofdm_subcarrier_modulation_spec(code: u8) -> Option<(Kind, Seq<char>)> {
    match code {
        1 => Some((Kind::Leaf(Format::U16), "StartSubcarrierId"@)),
        2 => Some((Kind::Leaf(Format::U16), "EndSubcarrierId"@)),
        3 => Some((Kind::Leaf(Format::NamedU8(Named::DsOfdmModulationType)), "Modulation"@)),
        _ => None,
    }
}

fn ds_ofdm_profile_ds_ofdm_subcarrier_modulation(code: u8) -> (r: Option<(Kind, &'static str)>)
    ensures
        match (r, ds_ofdm_profile_ds_ofdm_subcarrier_modulation_spec(code)) {
            (Some((k, l)), Some((ks, ls))) => k == ks && l@ == ls,
            (None, None) => true,
            _ => false,
        },
{
    match code {
        1 => Some((Kind::Leaf(Format::U16), "StartSubcarrierId")),
        2 => Some((Kind::Leaf(Format::U16), "EndSubcarrierId")),
        3 => Some((Kind::Leaf(Format::NamedU8(Named::DsOfdmModulationType)), "Modulation")),
        _ => None,
    }
}

/// The fields of the UsScQamChannelConfig context.
pub open spec fn us_sc_qam_channel_config_spec(code: u8) -> Option<(Kind, Seq<char>)> {
    match code {
        1 => Some((Kind::Leaf(Format::NamedU8(Named::AdminStateType)), "AdminState"@)),
        2 => Some((Kind::Leaf(Format::Hex), "CcapCoreOwner"@)),
        3 => Some((Kind::Leaf(Format::NamedU8(Named::UpstreamChannelType)), "ChannelType"@)),
        4 => Some((Kind::Leaf(Format::U32), "CenterFrequency"@)),
        5 => Some((Kind::Leaf(Format::U32), "Width"@)),
        6 => Some((Kind::Leaf(Format::U32), "SlotSize"@)),
        7 => Some((Kind::Leaf(Format::U32), "StartingMinislot"@)),
        8 => Some((Kind::Leaf(Format::Hex), "PreambleString"@)),
        9 => Some((Kind::Leaf(Format::U16), "TargetRxPowerAdjust"@)),
        10 => Some((Kind::Node(Ctx::UsScQamChannelConfigIntervalUsageCode), "IntervalUsageCode"@)),
        11 => Some((Kind::Leaf(Format::Choice(Choice::UsScQamChannelConfigEqualizationCoeffEnable)), "EqualizationCoeffEnable"@)),
        12 => Some((Kind::Leaf(Format::Choice(Choice::UsScQamChannelConfigIngressNoiseCancelEnable)), "IngressNoiseCancelEnable"@)),
        13 => Some((Kind::Leaf(Format::U8), "UsChanId"@)),
        14 => Some((Kind::Leaf(Format::U8), "ConfigChangeCount"@)),
        15 => Some((Kind::Leaf(Format::U8), "DsChanId"@)),
        _ => None,
    }
}

fn us_sc_qam_channel_config(code: u8) -> (r: Option<(Kind, &'static str)>)
    ensures
        match (r, us_sc_qam_channel_config_spec(code)) {
            (Some((k, l)), Some((ks, ls))) => k == ks && l@ == ls,
            (None, None) => true,
            _ => false,
        },
{
    match code {
        1 => Some((Kind::Leaf(Format::NamedU8(Named::AdminStateType)), "AdminState")),
        2 => Some((Kind::Leaf(Format::Hex), "CcapCoreOwner")),
        3 => Some((Kind::Leaf(Format::NamedU8(Named::UpstreamChannelType)), "ChannelType")),
        4 => Some((Kind::Leaf(Format::U32), "CenterFrequency")),
        5 => Some((Kind::Leaf(Format::U32), "Width")),
        6 => Some((Kind::Leaf(Format::U32), "SlotSize")),
        7 => Some((Kind::Leaf(Format::U32), "StartingMinislot")),
        8 => Some((Kind::Leaf(Format::Hex), "PreambleString")),
        9 => Some((Kind::Leaf(Format::U16), "TargetRxPowerAdjust")),
        10 => Some((Kind::Node(Ctx::UsScQamChannelConfigIntervalUsageCode), "IntervalUsageCode")),
        11 => Some((Kind::Leaf(Format::Choice(Choice::UsScQamChannelConfigEqualizationCoeffEnable)), "EqualizationCoeffEnable")),
        12 => Some((Kind::Leaf(Format::Choice(Choice::UsScQamChannelConfigIngressNoiseCancelEnable)), "IngressNoiseCancelEnable")),
        13 => Some((Kind::Leaf(Format::U8), "UsChanId")),
        14 => Some((Kind::Leaf(Format::U8), "ConfigChangeCount")),
        15 => Some((Kind::Leaf(Format::U8), "DsChanId")),
        _ => None,
    }
}

/// The fields of the UsScQamChannelConfigIntervalUsageCode context.
pub open spec fn us_sc_qam_channel_config_interval_usage_code_spec(code: u8) -> Option<(Kind, Seq<char>)> {
    match code {
        1 => Some((Kind::Leaf(Format::U8), "Code"@)),
        2 => Some((Kind::Leaf(Format::Choice(Choice::UsScQamChannelConfigIntervalUsageCodeDifferentialEncoding)), "DifferentialEncoding"@)),
        3 => Some((Kind::Leaf(Format::U8), "FecErrorCorrectionT"@)),
        4 => Some((Kind::Leaf(Format::U8), "FecCodewordLength"@)),
        5 => Some((Kind::Leaf(Format::U16), "PreambleLen"@)),
        6 => Some((Kind::Leaf(Format::U16), "PreambleOffsett"@)),
        7 => Some((Kind::Leaf(Format::Choice(Choice::UsScQamChannelConfigIntervalUsageCodePreambleModType)), "PreambleModType"@)),
        8 => Some((Kind::Leaf(Format::Choice(Choice::UsScQamChannelConfigIntervalUsageCodeScrambler)), "Scrambler"@)),
        9 => Some((Kind::Leaf(Format::U16), "ScrambleSeed"@)),
        10 => Some((Kind::Leaf(Format::U8), "MaxBurstSize"@)),
        11 => Some((Kind::Leaf(Format::Choice(Choice::UsScQamChannelConfigIntervalUsageCodeLasCodewordShortened)), "LasCodewordShortened"@)),
        12 => Some((Kind::Leaf(Format::Choice(Choice::UsScQamChannelConfigIntervalUsageCodeByteInterleaverDepth)), "ByteInterleaverDepth"@)),
        13 => Some((Kind::Leaf(Format::U16), "ByteInterleaverBlockSize"@)),
        14 => Some((Kind::Leaf(Format::NamedU8(Named::UpstreamModulationType)), "ModulationType"@)),
        15 => Some((Kind::Leaf(Format::U8), "GuardTime"@)),
        _ => None,
    }
}

fn us_sc_qam_channel_config_interval_usage_code(code: u8) -> (r: Option<(Kind, &'static str)>)
    ensures
        match (r, us_sc_qam_channel_config_interval_usage_code_spec(code)) {
            (Some((k, l)), Some((ks, ls))) => k == ks && l@ == ls,
            (None, None) => true,
            _ => false,
        },
{
    match code {
        1 => Some((Kind::Leaf(Format::U8), "Code")),
        2 => Some((Kind::Leaf(Format::Choice(Choice::UsScQamChannelConfigIntervalUsageCodeDifferentialEncoding)), "DifferentialEncoding")),
        3 => Some((Kind::Leaf(Format::U8), "FecErrorCorrectionT")),
        4 => Some((Kind::Leaf(Format::U8), "FecCodewordLength")),
        5 => Some((Kind::Leaf(Format::U16), "PreambleLen")),
        6 => Some((Kind::Leaf(Format::U16), "PreambleOffsett")),
        7 => Some((Kind::Leaf(Format::Choice(Choice::UsScQamChannelConfigIntervalUsageCodePreambleModType)), "PreambleModType")),
        8 => Some((Kind::Leaf(Format::Choice(Choice::UsScQamChannelConfigIntervalUsageCodeScrambler)), "Scrambler")),
        9 => Some((Kind::Leaf(Format::U16), "ScrambleSeed")),
        10 => Some((Kind::Leaf(Format::U8), "MaxBurstSize")),
        11 => Some((Kind::Leaf(Format::Choice(Choice::UsScQamChannelConfigIntervalUsageCodeLasCodewordShortened)), "LasCodewordShortened")),
        12 => Some((Kind::Leaf(Format::Choice(Choice::UsScQamChannelConfigIntervalUsageCodeByteInterleaverDepth)), "ByteInterleaverDepth")),
        13 => Some((Kind::Leaf(Format::U16), "ByteInterleaverBlockSize")),
        14 => Some((Kind::Leaf(Format::NamedU8(Named::UpstreamModulationType)), "ModulationType")),
        15 => Some((Kind::Leaf(Format::U8), "GuardTime")),
        _ => None,
    }
}

/// The fields of the UsOfdmaChannelConfig context.
pub open spec fn us_ofdma_channel_config_spec(code: u8) -> Option<(Kind, Seq<char>)> {
    match code {
        1 => Some((Kind::Leaf(Format::NamedU8(Named::AdminStateType)), "AdminState"@)),
        2 => Some((Kind::Leaf(Format::Hex), "CcapCoreOwner"@)),
        3 => Some((Kind::Leaf(Format::U32), "SubcarrierZeroFreq"@)),
        4 => Some((Kind::Leaf(Format::U16), "FirstActiveSubcarrierNum"@)),
        5 => Some((Kind::Leaf(Format::U16), "LastActiveSubcarrierNum"@)),
        6 => Some((Kind::Leaf(Format::NamedU16(Named::UsOfdmaRollOffPeriodType)), "RollOffPeriod"@)),
        7 => Some((Kind::Leaf(Format::NamedU16(Named::UsOfdmaCyclicPrefixType)), "CyclicPrefix"@)),
        8 => Some((Kind::Leaf(Format::NamedU8(Named::SubcarrierSpacingType)), "SubcarrierSpacing"@)),
        9 => Some((Kind::Leaf(Format::U8), "NumSymbolsPerFrame"@)),
        10 => Some((Kind::Leaf(Format::U16), "NumActiveSubcarriers"@)),
        11 => Some((Kind::Leaf(Format::U32), "StartingMinislot"@)),
        12 => Some((Kind::Leaf(Format::Hex), "PreambleString"@)),
        13 => Some((Kind::Leaf(Format::U16), "TargetRxPowerAdjust"@)),
        14 => Some((Kind::Leaf(Format::Choice(Choice::UsOfdmaChannelConfigEnableFlowTags)), "EnableFlowTags"@)),
        15 => Some((Kind::Leaf(Format::U32), "ScramblerSeed"@)),
        16 => Some((Kind::Leaf(Format::Hex), "ConfigMultiSectionTimingMer"@)),
        17 => Some((Kind::Node(Ctx::UsOfdmaChannelConfigBwReqAggrControlOfdma), "BwReqAggrControlOfdma"@)),
        18 => Some((Kind::Leaf(Format::U8), "UsChanId"@)),
        19 => Some((Kind::Leaf(Format::U8), "ConfigChangeCount"@)),
        20 => Some((Kind::Leaf(Format::U8), "DsChanId"@)),
        21 => Some((Kind::Leaf(Format::U8), "BroadcastImRegionDuration"@)),
        22 => Some((Kind::Leaf(Format::U8), "UnicastImRegionDuration"@)),
        23 => Some((Kind::Node(Ctx::UsOfdmaChannelConfigFdxConfig), "FdxConfig"@)),
        _ => None,
    }
}

fn us_ofdma_channel_config(code: u8) -> (r: Option<(Kind, &'static str)>)
    ensures
        match (r, us_ofdma_channel_config_spec(code)) {
            (Some((k, l)), Some((ks, ls))) => k == ks && l@ == ls,
            (None, None) => true,
            _ => false,
        },
{
    match code {
        1 => Some((Kind::Leaf(Format::NamedU8(Named::AdminStateType)), "AdminState")),
        2 => Some((Kind::Leaf(Format::Hex), "CcapCoreOwner")),
        3 => Some((Kind::Leaf(Format::U32), "SubcarrierZeroFreq")),
        4 => Some((Kind::Leaf(Format::U16), "FirstActiveSubcarrierNum")),
        5 => Some((Kind::Leaf(Format::U16), "LastActiveSubcarrierNum")),
        6 => Some((Kind::Leaf(Format::NamedU16(Named::UsOfdmaRollOffPeriodType)), "RollOffPeriod")),
        7 => Some((Kind::Leaf(Format::NamedU16(Named::UsOfdmaCyclicPrefixType)), "CyclicPrefix")),
        8 => Some((Kind::Leaf(Format::NamedU8(Named::SubcarrierSpacingType)), "SubcarrierSpacing")),
        9 => Some((Kind::Leaf(Format::U8), "NumSymbolsPerFrame")),
        10 => Some((Kind::Leaf(Format::U16), "NumActiveSubcarriers")),
        11 => Some((Kind::Leaf(Format::U32), "StartingMinislot")),
        12 => Some((Kind::Leaf(Format::Hex), "PreambleString")),
        13 => Some((Kind::Leaf(Format::U16), "TargetRxPowerAdjust")),
        14 => Some((Kind::Leaf(Format::Choice(Choice::UsOfdmaChannelConfigEnableFlowTags)), "EnableFlowTags")),
        15 => Some((Kind::Leaf(Format::U32), "ScramblerSeed")),
        16 => Some((Kind::Leaf(Format::Hex), "ConfigMultiSectionTimingMer")),
        17 => Some((Kind::Node(Ctx::UsOfdmaChannelConfigBwReqAggrControlOfdma), "BwReqAggrControlOfdma")),
        18 => Some((Kind::Leaf(Format::U8), "UsChanId")),
        19 => Some((Kind::Leaf(Format::U8), "ConfigChangeCount")),
        20 => Some((Kind::Leaf(Format::U8), "DsChanId")),
        21 => Some((Kind::Leaf(Format::U8), "BroadcastImRegionDuration")),
        22 => Some((Kind::Leaf(Format::U8), "UnicastImRegionDuration")),
        23 => Some((Kind::Node(Ctx::UsOfdmaChannelConfigFdxConfig), "FdxConfig")),
        _ => None,
    }
}

/// The fields of the UsOfdmaChannelConfigBwReqAggrControlOfdma context.
pub open spec fn us_ofdma_channel_config_bw_req_aggr_control_ofdma_spec(code: u8) -> Option<(Kind, Seq<char>)> {
    match code {
        1 => Some((Kind::Leaf(Format::U16), "MaxReqBlockEnqTimeout"@)),
        2 => Some((Kind::Leaf(Format::U8), "MaxReqBlockEnqNumber"@)),
        _ => None,
    }
}

fn us_ofdma_channel_config_bw_req_aggr_control_ofdma(code: u8) -> (r: Option<(Kind, &'static str)>)
    ensures
        match (r, us_ofdma_channel_config_bw_req_aggr_control_ofdma_spec(code)) {
            (Some((k, l)), Some((ks, ls))) => k == ks && l@ == ls,
            (None, None) => true,
            _ => false,
        },
{
    match code {
        1 => Some((Kind::Leaf(Format::U16), "MaxReqBlockEnqTimeout")),
        2 => Some((Kind::Leaf(Format::U8), "MaxReqBlockEnqNumber")),
        _ => None,
    }
}

/// The fields of the UsOfdmaChannelConfigFdxConfig context.
pub open spec fn us_ofdma_channel_config_fdx_config_spec(code: u8) -> Option<(Kind, Seq<char>)> {
    match code {
        1 => Some((Kind::Leaf(Format::U16), "EctSid"@)),
        2 => Some((Kind::Leaf(Format::Choice(Choice::UsOfdmaChannelConfigFdxConfigEcEnable)), "EcEnable"@)),
        _ => None,
    }
}

fn us_ofdma_channel_config_fdx_config(code: u8) -> (r: Option<(Kind, &'static str)>)
    ensures
        match (r, us_ofdma_channel_config_fdx_config_spec(code)) {
            (Some((k, l)), Some((ks, ls))) => k == ks && l@ == ls,
            (None, None) => true,
            _ => false,
        },
{
    match code {
        1 => Some((Kind::Leaf(Format::U16), "EctSid")),
        2 => Some((Kind::Leaf(Format::Choice(Choice::UsOfdmaChannelConfigFdxConfigEcEnable)), "EcEnable")),
        _ => None,
    }
}

/// The fields of the DsOfdmChannelPerf context.
pub open spec fn ds_ofdm_channel_perf_spec(code: u8) -> Option<(Kind, Seq<char>)> {
    match code {
        1 => Some((Kind::Leaf(Format::U64), "outDiscards"@)),
        2 => Some((Kind::Leaf(Format::U64), "outErrors"@)),
        3 => Some((Kind::Node(Ctx::DsOfdmChannelPerfDsOfdmProfilePerf), "DsOfdmProfilePerf"@)),
        4 => Some((Kind::Leaf(Format::U64), "outPackets"@)),
        5 => Some((Kind::Leaf(Format::Date), "discontinuityTime"@)),
        6 => Some((Kind::Node(Ctx::DsOfdmChannelPerfDsOfdmPlcPerf), "DsOfdmPlcPerf"@)),
        7 => Some((Kind::Leaf(Format::NamedU8(Named::OperationalStatusType)), "operStatusDsOfdm"@)),
        8 => Some((Kind::Leaf(Format::U64), "PlcFrameTimeAlignment"@)),
        _ => None,
    }
}

fn ds_ofdm_channel_perf(code: u8) -> (r: Option<(Kind, &'static str)>)
    ensures
        match (r, ds_ofdm_channel_perf_spec(code)) {
            (Some((k, l)), Some((ks, ls))) => k == ks && l@ == ls,
            (None, None) => true,
            _ => false,
        },
{
    match code {
        1 => Some((Kind::Leaf(Format::U64), "outDiscards")),
        2 => Some((Kind::Leaf(Format::U64), "outErrors")),
        3 => Some((Kind::Node(Ctx::DsOfdmChannelPerfDsOfdmProfilePerf), "DsOfdmProfilePerf")),
        4 => Some((Kind::Leaf(Format::U64), "outPackets")),
        5 => Some((Kind::Leaf(Format::Date), "discontinuityTime")),
        6 => Some((Kind::Node(Ctx::DsOfdmChannelPerfDsOfdmPlcPerf), "DsOfdmPlcPerf")),
        7 => Some((Kind::Leaf(Format::NamedU8(Named::OperationalStatusType)), "operStatusDsOfdm")),
        8 => Some((Kind::Leaf(Format::U64), "PlcFrameTimeAlignment")),
        _ => None,
    }
}

/// The fields of the DsOfdmChannelPerfDsOfdmProfilePerf context.
pub open spec fn ds_ofdm_channel_perf_ds_ofdm_profile_perf_spec(code: u8) -> Option<(Kind, Seq<char>)> {
    match code {
        1 => Some((Kind::Leaf(Format::U8), "ProfileIndex"@)),
        2 => Some((Kind::Leaf(Format::U64), "outCodewords"@)),
        _ => None,
    }
}

fn ds_ofdm_channel_perf_ds_ofdm_profile_perf(code: u8) -> (r: Option<(Kind, &'static str)>)
    ensures
        match (r, ds_ofdm_channel_perf_ds_ofdm_profile_perf_spec(code)) {
            (Some((k, l)), Some((ks, ls))) => k == ks && l@ == ls,
            (None, None) => true,
            _ => false,
        },
{
    match code {
        1 => Some((Kind::Leaf(Format::U8), "ProfileIndex")),
        2 => Some((Kind::Leaf(Format::U64), "outCodewords")),
        _ => None,
    }
}

/// The fields of the DsOfdmChannelPerfDsOfdmPlcPerf context.
pub open spec fn ds_ofdm_channel_perf_ds_ofdm_plc_perf_spec(code: u8) -> Option<(Kind, Seq<char>)> {
    match code {
        1 => Some((Kind::Leaf(Format::U64), "outDiscards"@)),
        2 => Some((Kind::Leaf(Format::U64), "outErrors"@)),
        3 => Some((Kind::Leaf(Format::U64), "outPackets"@)),
        4 => Some((Kind::Leaf(Format::Date), "discontinuityTime"@)),
        _ => None,
    }
}

fn ds_ofdm_channel_perf_ds_ofdm_plc_perf(code: u8) -> (r: Option<(Kind, &'static str)>)
    ensures
        match (r, ds_ofdm_channel_perf_ds_ofdm_plc_perf_spec(code)) {
            (Some((k, l)), Some((ks, ls))) => k == ks && l@ == ls,
            (None, None) => true,
            _ => false,
        },
{
    match code {
        1 => Some((Kind::Leaf(Format::U64), "outDiscards")),
        2 => Some((Kind::Leaf(Format::U64), "outErrors")),
        3 => Some((Kind::Leaf(Format::U64), "outPackets")),
        4 => Some((Kind::Leaf(Format::Date), "discontinuityTime")),
        _ => None,
    }
}

/// The fields of the UsScQamChannelPerf context.
pub open spec fn us_sc_qam_channel_perf_spec(code: u8) -> Option<(Kind, Seq<char>)> {
    match code {
        1 => Some((Kind::Node(Ctx::UsScQamChannelPerfUsScChanLowIucStats), "UsScChanLowIucStats"@)),
        2 => Some((Kind::Node(Ctx::UsScQamChannelPerfUsScChanHiIucStats), "UsScChanHiIucStats"@)),
        3 => Some((Kind::Leaf(Format::U64), "HcsErrors"@)),
        4 => Some((Kind::Leaf(Format::U64), "LateMaps"@)),
        5 => Some((Kind::Leaf(Format::U64), "IllegalMaps"@)),
        6 => Some((Kind::Leaf(Format::U64), "DiscardedRequests"@)),
        7 => Some((Kind::Leaf(Format::U16), "ChannelSnr"@)),
        8 => Some((Kind::Leaf(Format::Date), "discontinuityTime"@)),
        9 => Some((Kind::Leaf(Format::NamedU8(Named::OperationalStatusType)), "operStatusUsScQam"@)),
        10 => Some((Kind::Node(Ctx::UsScQamChannelPerfUcdRefreshStatusScqam), "UcdRefreshStatusScqam"@)),
        _ => None,
    }
}

fn us_sc_qam_channel_perf(code: u8) -> (r: Option<(Kind, &'static str)>)
    ensures
        match (r, us_sc_qam_channel_perf_spec(code)) {
            (Some((k, l)), Some((ks, ls))) => k == ks && l@ == ls,
            (None, None) => true,
            _ => false,
        },
{
    match code {
        1 => Some((Kind::Node(Ctx::UsScQamChannelPerfUsScChanLowIucStats), "UsScChanLowIucStats")),
        2 => Some((Kind::Node(Ctx::UsScQamChannelPerfUsScChanHiIucStats), "UsScChanHiIucStats")),
        3 => Some((Kind::Leaf(Format::U64), "HcsErrors")),
        4 => Some((Kind::Leaf(Format::U64), "LateMaps")),
        5 => Some((Kind::Leaf(Format::U64), "IllegalMaps")),
        6 => Some((Kind::Leaf(Format::U64), "DiscardedRequests")),
        7 => Some((Kind::Leaf(Format::U16), "ChannelSnr")),
        8 => Some((Kind::Leaf(Format::Date), "discontinuityTime")),
        9 => Some((Kind::Leaf(Format::NamedU8(Named::OperationalStatusType)), "operStatusUsScQam")),
        10 => Some((Kind::Node(Ctx::UsScQamChannelPerfUcdRefreshStatusScqam), "UcdRefreshStatusScqam")),
        _ => None,
    }
}

/// The fields of the UsScQamChannelPerfUsScChanLowIucStats context.
pub open spec fn us_sc_qam_channel_perf_us_sc_chan_low_iuc_stats_spec(code: u8) -> Option<(Kind, Seq<char>)> {
    match code {
        1 => Some((Kind::Leaf(Format::U8), "UsIuc"@)),
        2 => Some((Kind::Leaf(Format::U64), "UnicastOpportunities"@)),
        3 => Some((Kind::Leaf(Format::U64), "UnicastOpCollisions"@)),
        4 => Some((Kind::Leaf(Format::U64), "UnicastOpNoEnergy"@)),
        5 => Some((Kind::Leaf(Format::U64), "UnicastOpErrors"@)),
        6 => Some((Kind::Leaf(Format::U64), "MulticastOpportunities"@)),
        7 => Some((Kind::Leaf(Format::U64), "McastOpCollisions"@)),
        8 => Some((Kind::Leaf(Format::U64), "McastOpNoEnergy"@)),
        9 => Some((Kind::Leaf(Format::U64), "McastOpErrors"@)),
        10 => Some((Kind::Leaf(Format::U64), "GoodFecCw"@)),
        11 => Some((Kind::Leaf(Format::U64), "CorrectedFecCw"@)),
        12 => Some((Kind::Leaf(Format::U64), "UncorrectFecCw"@)),
        _ => None,
    }
}

fn us_sc_qam_channel_perf_us_sc_chan_low_iuc_stats(code: u8) -> (r: Option<(Kind, &'static str)>)
    ensures
        match (r, us_sc_qam_channel_perf_us_sc_chan_low_iuc_stats_spec(code)) {
            (Some((k, l)), Some((ks, ls))) => k == ks && l@ == ls,
            (None, None) => true,
            _ => false,
        },
{
    match code {
        1 => Some((Kind::Leaf(Format::U8), "UsIuc")),
        2 => Some((Kind::Leaf(Format::U64), "UnicastOpportunities")),
        3 => Some((Kind::Leaf(Format::U64), "UnicastOpCollisions")),
        4 => Some((Kind::Leaf(Format::U64), "UnicastOpNoEnergy")),
        5 => Some((Kind::Leaf(Format::U64), "UnicastOpErrors")),
        6 => Some((Kind::Leaf(Format::U64), "MulticastOpportunities")),
        7 => Some((Kind::Leaf(Format::U64), "McastOpCollisions")),
        8 => Some((Kind::Leaf(Format::U64), "McastOpNoEnergy")),
        9 => Some((Kind::Leaf(Format::U64), "McastOpErrors")),
        10 => Some((Kind::Leaf(Format::U64), "GoodFecCw")),
        11 => Some((Kind::Leaf(Format::U64), "CorrectedFecCw")),
        12 => Some((Kind::Leaf(Format::U64), "UncorrectFecCw")),
        _ => None,
    }
}

/// The fields of the UsScQamChannelPerfUsScChanHiIucStats context.
pub open spec fn us_sc_qam_channel_perf_us_sc_chan_hi_iuc_stats_spec(code: u8) -> Option<(Kind, Seq<char>)> {
    match code {
        1 => Some((Kind::Leaf(Format::U8), "UsIuc"@)),
        2 => Some((Kind::Leaf(Format::U64), "ScheduledGrants"@)),
        3 => Some((Kind::Leaf(Format::U64), "NoEnergyBursts"@)),
        4 => Some((Kind::Leaf(Format::U64), "NoPreambleBursts"@)),
        5 => Some((Kind::Leaf(Format::U64), "ErrorBursts"@)),
        6 => Some((Kind::Leaf(Format::U64), "GoodFecCw"@)),
        7 => Some((Kind::Leaf(Format::U64), "CorrectedFecCw"@)),
        8 => Some((Kind::Leaf(Format::U64), "UncorrectFecCw"@)),
        _ => None,
    }
}

fn us_sc_qam_channel_perf_us_sc_chan_hi_iuc_stats(code: u8) -> (r: Option<(Kind, &'static str)>)
    ensures
        match (r, us_sc_qam_channel_perf_us_sc_chan_hi_iuc_stats_spec(code)) {
            (Some((k, l)), Some((ks, ls))) => k == ks && l@ == ls,
            (None, None) => true,
            _ => false,
        },
{
    match code {
        1 => Some((Kind::Leaf(Format::U8), "UsIuc")),
        2 => Some((Kind::Leaf(Format::U64), "ScheduledGrants")),
        3 => Some((Kind::Leaf(Format::U64), "NoEnergyBursts")),
        4 => Some((Kind::Leaf(Format::U64), "NoPreambleBursts")),
        5 => Some((Kind::Leaf(Format::U64), "ErrorBursts")),
        6 => Some((Kind::Leaf(Format::U64), "GoodFecCw")),
        7 => Some((Kind::Leaf(Format::U64), "CorrectedFecCw")),
        8 => Some((Kind::Leaf(Format::U64), "UncorrectFecCw")),
        _ => None,
    }
}

/// The fields of the UsScQamChannelPerfUcdRefreshStatusScqam context.
pub open spec fn us_sc_qam_channel_perf_ucd_refresh_status_scqam_spec(code: u8) -> Option<(Kind, Seq<char>)> {
    match code {
        1 => Some((Kind::Leaf(Format::Choice(Choice::UsScQamChannelPerfUcdRefreshStatusScqamUcdRefreshRequestScqam)), "UcdRefreshRequestScqam"@)),
        2 => Some((Kind::Leaf(Format::Text), "UcdRefreshReasonScqam"@)),
        _ => None,
    }
}

fn us_sc_qam_channel_perf_ucd_refresh_status_scqam(code: u8) -> (r: Option<(Kind, &'static str)>)
    ensures
        match (r, us_sc_qam_channel_perf_ucd_refresh_status_scqam_spec(code)) {
            (Some((k, l)), Some((ks, ls))) => k == ks && l@ == ls,
            (None, None) => true,
            _ => false,
        },
{
    match code {
        1 => Some((Kind::Leaf(Format::Choice(Choice::UsScQamChannelPerfUcdRefreshStatusScqamUcdRefreshRequestScqam)), "UcdRefreshRequestScqam")),
        2 => Some((Kind::Leaf(Format::Text), "UcdRefreshReasonScqam")),
        _ => None,
    }
}

/// The fields of the UsOfdmaChannelPerf context.
pub open spec fn us_ofdma_channel_perf_spec(code: u8) -> Option<(Kind, Seq<char>)> {
    match code {
        1 => Some((Kind::Node(Ctx::UsOfdmaChannelPerfUsOfdmaChanLowIucStats), "UsOfdmaChanLowIucStats"@)),
        2 => Some((Kind::Node(Ctx::UsOfdmaChannelPerfUsOfdmaChanHiIucStats), "UsOfdmaChanHiIucStats"@)),
        3 => Some((Kind::Leaf(Format::U64), "HcsErrors"@)),
        4 => Some((Kind::Leaf(Format::U64), "LateMaps"@)),
        5 => Some((Kind::Leaf(Format::U64), "IllegalMaps"@)),
        6 => Some((Kind::Leaf(Format::U64), "DiscardedRequests"@)),
        7 => Some((Kind::Leaf(Format::U64), "ProbeGrants"@)),
        8 => Some((Kind::Leaf(Format::Date), "discontinuityTime"@)),
        9 => Some((Kind::Leaf(Format::U8), "operStatusUsOfdma"@)),
        10 => Some((Kind::Node(Ctx::UsOfdmaChannelPerfUcdRefreshStatusOfdma), "UcdRefreshStatusOfdma"@)),
        _ => None,
    }
}

fn us_ofdma_channel_perf(code: u8) -> (r: Option<(Kind, &'static str)>)
    ensures
        match (r, us_ofdma_channel_perf_spec(code)) {
            (Some((k, l)), Some((ks, ls))) => k == ks && l@ == ls,
            (None, None) => true,
            _ => false,
        },
{
    match code {
        1 => Some((Kind::Node(Ctx::UsOfdmaChannelPerfUsOfdmaChanLowIucStats), "UsOfdmaChanLowIucStats")),
        2 => Some((Kind::Node(Ctx::UsOfdmaChannelPerfUsOfdmaChanHiIucStats), "UsOfdmaChanHiIucStats")),
        3 => Some((Kind::Leaf(Format::U64), "HcsErrors")),
        4 => Some((Kind::Leaf(Format::U64), "LateMaps")),
        5 => Some((Kind::Leaf(Format::U64), "IllegalMaps")),
        6 => Some((Kind::Leaf(Format::U64), "DiscardedRequests")),
        7 => Some((Kind::Leaf(Format::U64), "ProbeGrants")),
        8 => Some((Kind::Leaf(Format::Date), "discontinuityTime")),
        9 => Some((Kind::Leaf(Format::U8), "operStatusUsOfdma")),
        10 => Some((Kind::Node(Ctx::UsOfdmaChannelPerfUcdRefreshStatusOfdma), "UcdRefreshStatusOfdma")),
        _ => None,
    }
}

/// The fields of the UsOfdmaChannelPerfUsOfdmaChanLowIucStats context.
pub open spec fn us_ofdma_channel_perf_us_ofdma_chan_low_iuc_stats_spec(code: u8) -> Option<(Kind, Seq<char>)> {
    match code {
        1 => Some((Kind::Leaf(Format::U8), "UsIuc"@)),
        2 => Some((Kind::Leaf(Format::U64), "UnicastOpportunities"@)),
        3 => Some((Kind::Leaf(Format::U64), "UnicastOpCollisions"@)),
        4 => Some((Kind::Leaf(Format::U64), "UnicastOpNoEnergy"@)),
        5 => Some((Kind::Leaf(Format::U64), "UnicastOpErrors"@)),
        6 => Some((Kind::Leaf(Format::U64), "MulticastOpportunities"@)),
        7 => Some((Kind::Leaf(Format::U64), "McastOpCollisions"@)),
        8 => Some((Kind::Leaf(Format::U64), "McastOpNoEnergy"@)),
        9 => Some((Kind::Leaf(Format::U64), "McastOpErrors"@)),
        10 => Some((Kind::Leaf(Format::U64), "NumPredecodePass"@)),
        11 => Some((Kind::Leaf(Format::U64), "NumPostdecodePass"@)),
        12 => Some((Kind::Leaf(Format::U64), "NumPostdecodeFail"@)),
        _ => None,
    }
}

fn us_ofdma_channel_perf_us_ofdma_chan_low_iuc_stats(code: u8) -> (r: Option<(Kind, &'static str)>)
    ensures
        match (r, us_ofdma_channel_perf_us_ofdma_chan_low_iuc_stats_spec(code)) {
            (Some((k, l)), Some((ks, ls))) => k == ks && l@ == ls,
            (None, None) => true,
            _ => false,
        },
{
    match code {
        1 => Some((Kind::Leaf(Format::U8), "UsIuc")),
        2 => Some((Kind::Leaf(Format::U64), "UnicastOpportunities")),
        3 => Some((Kind::Leaf(Format::U64), "UnicastOpCollisions")),
        4 => Some((Kind::Leaf(Format::U64), "UnicastOpNoEnergy")),
        5 => Some((Kind::Leaf(Format::U64), "UnicastOpErrors")),
        6 => Some((Kind::Leaf(Format::U64), "MulticastOpportunities")),
        7 => Some((Kind::Leaf(Format::U64), "McastOpCollisions")),
        8 => Some((Kind::Leaf(Format::U64), "McastOpNoEnergy")),
        9 => Some((Kind::Leaf(Format::U64), "McastOpErrors")),
        10 => Some((Kind::Leaf(Format::U64), "NumPredecodePass")),
        11 => Some((Kind::Leaf(Format::U64), "NumPostdecodePass")),
        12 => Some((Kind::Leaf(Format::U64), "NumPostdecodeFail")),
        _ => None,
    }
}

/// The fields of the UsOfdmaChannelPerfUsOfdmaChanHiIucStats context.
pub open spec fn us_ofdma_channel_perf_us_ofdma_chan_hi_iuc_stats_spec(code: u8) -> Option<(Kind, Seq<char>)> {
    match code {
        1 => Some((Kind::Leaf(Format::U8), "UsIuc"@)),
        2 => Some((Kind::Leaf(Format::U64), "ScheduledGrants"@)),
        3 => Some((Kind::Leaf(Format::U64), "NoEnergyBursts"@)),
        4 => Some((Kind::Leaf(Format::U64), "NoPreambleBursts"@)),
        5 => Some((Kind::Leaf(Format::U64), "ErrorBursts"@)),
        6 => Some((Kind::Leaf(Format::U64), "NumPredecodePass"@)),
        7 => Some((Kind::Leaf(Format::U64), "NumPostdecodePass"@)),
        8 => Some((Kind::Leaf(Format::U64), "NumPostdecodeFail"@)),
        9 => Some((Kind::Leaf(Format::U16), "AverageMer"@)),
        _ => None,
    }
}

fn us_ofdma_channel_perf_us_ofdma_chan_hi_iuc_stats(code: u8) -> (r: Option<(Kind, &'static str)>)
    ensures
        match (r, us_ofdma_channel_perf_us_ofdma_chan_hi_iuc_stats_spec(code)) {
            (Some((k, l)), Some((ks, ls))) => k == ks && l@ == ls,
            (None, None) => true,
            _ => false,
        },
{
    match code {
        1 => Some((Kind::Leaf(Format::U8), "UsIuc")),
        2 => Some((Kind::Leaf(Format::U64), "ScheduledGrants")),
        3 => Some((Kind::Leaf(Format::U64), "NoEnergyBursts")),
        4 => Some((Kind::Leaf(Format::U64), "NoPreambleBursts")),
        5 => Some((Kind::Leaf(Format::U64), "ErrorBursts")),
        6 => Some((Kind::Leaf(Format::U64), "NumPredecodePass")),
        7 => Some((Kind::Leaf(Format::U64), "NumPostdecodePass")),
        8 => Some((Kind::Leaf(Format::U64), "NumPostdecodeFail")),
        9 => Some((Kind::Leaf(Format::U16), "AverageMer")),
        _ => None,
    }
}

/// The fields of the UsOfdmaChannelPerfUcdRefreshStatusOfdma context.
pub open spec fn us_ofdma_channel_perf_ucd_refresh_status_ofdma_spec(code: u8) -> Option<(Kind, Seq<char>)> {
    match code {
        1 => Some((Kind::Leaf(Format::Choice(Choice::UsOfdmaChannelPerfUcdRefreshStatusOfdmaUcdRefreshRequestOfdma)), "UcdRefreshRequestOfdma"@)),
        2 => Some((Kind::Leaf(Format::Text), "UcdRefreshReasonOfdma"@)),
        _ => None,
    }
}

fn us_ofdma_channel_perf_ucd_refresh_status_ofdma(code: u8) -> (r: Option<(Kind, &'static str)>)
    ensures
        match (r, us_ofdma_channel_perf_ucd_refresh_status_ofdma_spec(code)) {
            (Some((k, l)), Some((ks, ls))) => k == ks && l@ == ls,
            (None, None) => true,
            _ => false,
        },
{
    match code {
        1 => Some((Kind::Leaf(Format::Choice(Choice::UsOfdmaChannelPerfUcdRefreshStatusOfdmaUcdRefreshRequestOfdma)), "UcdRefreshRequestOfdma")),
        2 => Some((Kind::Leaf(Format::Text), "UcdRefreshReasonOfdma")),
        _ => None,
    }
}

/// The fields of the RpdState context.
pub open spec fn rpd_state_spec(code: u8) -> Option<(Kind, Seq<char>)> {
    match code {
        1 => Some((Kind::Leaf(Format::NamedU8(Named::TopLevelRpdstate)), "TopLevelRpdstate"@)),
        2 => Some((Kind::Node(Ctx::RpdStateNetworkAuthenticationState), "NetworkAuthenticationState"@)),
        3 => Some((Kind::Leaf(Format::NamedU8(Named::CoreSubState)), "ConnectPrincipalCoreSubState"@)),
        4 => Some((Kind::Node(Ctx::RpdStateAuxCoreState), "AuxCoreState"@)),
        5 => Some((Kind::Leaf(Format::Choice(Choice::RpdStateLocalPtpSyncStatus)), "LocalPtpSyncStatus"@)),
        _ => None,
    }
}

fn rpd_state(code: u8) -> (r: Option<(Kind, &'static str)>)
    ensures
        match (r, rpd_state_spec(code)) {
            (Some((k, l)), Some((ks, ls))) => k == ks && l@ == ls,
            (None, None) => true,
            _ => false,
        },
{
    match code {
        1 => Some((Kind::Leaf(Format::NamedU8(Named::TopLevelRpdstate)), "TopLevelRpdstate")),
        2 => Some((Kind::Node(Ctx::RpdStateNetworkAuthenticationState), "NetworkAuthenticationState")),
        3 => Some((Kind::Leaf(Format::NamedU8(Named::CoreSubState)), "ConnectPrincipalCoreSubState")),
        4 => Some((Kind::Node(Ctx::RpdStateAuxCoreState), "AuxCoreState")),
        5 => Some((Kind::Leaf(Format::Choice(Choice::RpdStateLocalPtpSyncStatus)), "LocalPtpSyncStatus")),
        _ => None,
    }
}

/// The fields of the RpdStateNetworkAuthenticationState context.
pub open spec fn rpd_state_network_authentication_state_spec(code: u8) -> Option<(Kind, Seq<char>)> {
    match code {
        1 => Some((Kind::Leaf(Format::U8), "NetworkAuthenticationPortIndex"@)),
        2 => Some((Kind::Leaf(Format::NamedU8(Named::NetworkAuthenticationRpdState)), "NetworkAuthenticationRpdState"@)),
        _ => None,
    }
}

fn rpd_state_network_authentication_state(code: u8) -> (r: Option<(Kind, &'static str)>)
    ensures
        match (r, rpd_state_network_authentication_state_spec(code)) {
            (Some((k, l)), Some((ks, ls))) => k == ks && l@ == ls,
            (None, None) => true,
            _ => false,
        },
{
    match code {
        1 => Some((Kind::Leaf(Format::U8), "NetworkAuthenticationPortIndex")),
        2 => Some((Kind::Leaf(Format::NamedU8(Named::NetworkAuthenticationRpdState)), "NetworkAuthenticationRpdState")),
        _ => None,
    }
}

/// The fields of the RpdStateAuxCoreState context.
pub open spec fn rpd_state_aux_core_state_spec(code: u8) -> Option<(Kind, Seq<char>)> {
    match code {
        1 => Some((Kind::Leaf(Format::U8), "AuxCoreIndex"@)),
        2 => Some((Kind::Leaf(Format::Hex), "AusCoreId"@)),
        3 => Some((Kind::Leaf(Format::Ip), "AuxCoreIp"@)),
        4 => Some((Kind::Leaf(Format::NamedU8(Named::CoreSubState)), "CoreSubState"@)),
        _ => None,
    }
}

fn rpd_state_aux_core_state(code: u8) -> (r: Option<(Kind, &'static str)>)
    ensures
        match (r, rpd_state_aux_core_state_spec(code)) {
            (Some((k, l)), Some((ks, ls))) => k == ks && l@ == ls,
            (None, None) => true,
            _ => false,
        },
{
    match code {
        1 => Some((Kind::Leaf(Format::U8), "AuxCoreIndex")),
        2 => Some((Kind::Leaf(Format::Hex), "AusCoreId")),
        3 => Some((Kind::Leaf(Format::Ip), "AuxCoreIp")),
        4 => Some((Kind::Leaf(Format::NamedU8(Named::CoreSubState)), "CoreSubState")),
        _ => None,
    }
}

/// The fields of the DsOob55d1 context.
pub open spec fn ds_oob55d1_spec(code: u8) -> Option<(Kind, Seq<char>)> {
    match code {
        1 => Some((Kind::Leaf(Format::NamedU8(Named::AdminStateType)), "AdminState"@)),
        2 => Some((Kind::Leaf(Format::Hex), "CcapCoreOwner"@)),
        3 => Some((Kind::Leaf(Format::Choice(Choice::DsOob55d1RfMute)), "RfMute"@)),
        4 => Some((Kind::Leaf(Format::U32), "Frequency"@)),
        5 => Some((Kind::Leaf(Format::U16), "PowerAdjust"@)),
        6 => Some((Kind::Leaf(Format::U32), "SecondFrequency"@)),
        7 => Some((Kind::Leaf(Format::U32), "SfPowerAdjust"@)),
        8 => Some((Kind::Leaf(Format::NamedU8(Named::AdminStateType)), "SfAdminState"@)),
        9 => Some((Kind::Leaf(Format::Choice(Choice::DsOob55d1SfRfMute)), "SfRfMute"@)),
        _ => None,
    }
}

fn ds_oob55d1(code: u8) -> (r: Option<(Kind, &'static str)>)
    ensures
        match (r, ds_oob55d1_spec(code)) {
            (Some((k, l)), Some((ks, ls))) => k == ks && l@ == ls,
            (None, None) => true,
            _ => false,
        },
{
    match code {
        1 => Some((Kind::Leaf(Format::NamedU8(Named::AdminStateType)), "AdminState")),
        2 => Some((Kind::Leaf(Format::Hex), "CcapCoreOwner")),
        3 => Some((Kind::Leaf(Format::Choice(Choice::DsOob55d1RfMute)), "RfMute")),
        4 => Some((Kind::Leaf(Format::U32), "Frequency")),
        5 => Some((Kind::Leaf(Format::U16), "PowerAdjust")),
        6 => Some((Kind::Leaf(Format::U32), "SecondFrequency")),
        7 => Some((Kind::Leaf(Format::U32), "SfPowerAdjust")),
        8 => Some((Kind::Leaf(Format::NamedU8(Named::AdminStateType)), "SfAdminState")),
        9 => Some((Kind::Leaf(Format::Choice(Choice::DsOob55d1SfRfMute)), "SfRfMute")),
        _ => None,
    }
}

/// The fields of the UsOob55d1 context.
pub open spec fn us_oob55d1_spec(code: u8) -> Option<(Kind, Seq<char>)> {
    match code {
        1 => Some((Kind::Leaf(Format::NamedU8(Named::AdminStateType)), "AdminState"@)),
        2 => Some((Kind::Leaf(Format::Hex), "CcapCoreOwner"@)),
        3 => Some((Kind::Leaf(Format::U32), "Frequency"@)),
        4 => Some((Kind::Leaf(Format::U32), "VarpdDeviceId"@)),
        5 => Some((Kind::Leaf(Format::U8), "VarpdRfPortId"@)),
        6 => Some((Kind::Leaf(Format::U8), "VarpdDemodId"@)),
        7 => Some((Kind::Leaf(Format::U16), "TargetRxPowerAdjust"@)),
        _ => None,
    }
}

fn us_oob55d1(code: u8) -> (r: Option<(Kind, &'static str)>)
    ensures
        match (r, us_oob55d1_spec(code)) {
            (Some((k, l)), Some((ks, ls))) => k == ks && l@ == ls,
            (None, None) => true,
            _ => false,
        },
{
    match code {
        1 => Some((Kind::Leaf(Format::NamedU8(Named::AdminStateType)), "AdminState")),
        2 => Some((Kind::Leaf(Format::Hex), "CcapCoreOwner")),
        3 => Some((Kind::Leaf(Format::U32), "Frequency")),
        4 => Some((Kind::Leaf(Format::U32), "VarpdDeviceId")),
        5 => Some((Kind::Leaf(Format::U8), "VarpdRfPortId")),
        6 => Some((Kind::Leaf(Format::U8), "VarpdDemodId")),
        7 => Some((Kind::Leaf(Format::U16), "TargetRxPowerAdjust")),
        _ => None,
    }
}

/// The fields of the UsRfPort context.
pub open spec fn us_rf_port_spec(code: u8) -> Option<(Kind, Seq<char>)> {
    match code {
        1 => Some((Kind::Leaf(Format::NamedU8(Named::AdminStateType)), "AdminState"@)),
        2 => Some((Kind::Node(Ctx::UsRfPortBwReqAggrControl), "BwReqAggrControl"@)),
        3 => Some((Kind::Leaf(Format::U16), "BaseTargetRxPower"@)),
        4 => Some((Kind::Leaf(Format::U16), "FdxAllocSpectrumWidth"@)),
        _ => None,
    }
}

fn us_rf_port(code: u8) -> (r: Option<(Kind, &'static str)>)
    ensures
        match (r, us_rf_port_spec(code)) {
            (Some((k, l)), Some((ks, ls))) => k == ks && l@ == ls,
            (None, None) => true,
            _ => false,
        },
{
    match code {
        1 => Some((Kind::Leaf(Format::NamedU8(Named::AdminStateType)), "AdminState")),
        2 => Some((Kind::Node(Ctx::UsRfPortBwReqAggrControl), "BwReqAggrControl")),
        3 => Some((Kind::Leaf(Format::U16), "BaseTargetRxPower")),
        4 => Some((Kind::Leaf(Format::U16), "FdxAllocSpectrumWidth")),
        _ => None,
    }
}

/// The fields of the UsRfPortBwReqAggrControl context.
pub open spec fn us_rf_port_bw_req_aggr_control_spec(code: u8) -> Option<(Kind, Seq<char>)> {
    match code {
        1 => Some((Kind::Leaf(Format::U16), "MaxReqBlockEnqTimeout"@)),
        2 => Some((Kind::Leaf(Format::U8), "MaxReqBlockEnqNumber"@)),
        _ => None,
    }
}

fn us_rf_port_bw_req_aggr_control(code: u8) -> (r: Option<(Kind, &'static str)>)
    ensures
        match (r, us_rf_port_bw_req_aggr_control_spec(code)) {
            (Some((k, l)), Some((ks, ls))) => k == ks && l@ == ls,
            (None, None) => true,
            _ => false,
        },
{
    match code {
        1 => Some((Kind::Leaf(Format::U16), "MaxReqBlockEnqTimeout")),
        2 => Some((Kind::Leaf(Format::U8), "MaxReqBlockEnqNumber")),
        _ => None,
    }
}

/// The fields of the RfmConfig context.
pub open spec fn rfm_config_spec(code: u8) -> Option<(Kind, Seq<char>)> {
    match code {
        1 => Some((Kind::Node(Ctx::RfmConfigDsPowerGainConfig), "DsPowerGainConfig"@)),
        2 => Some((Kind::Node(Ctx::RfmConfigUsPowerGainConfig), "UsPowerGainConfig"@)),
        3 => Some((Kind::Node(Ctx::RfmConfigDsTiltCfg), "DsTiltCfg"@)),
        _ => None,
    }
}

fn rfm_config(code: u8) -> (r: Option<(Kind, &'static str)>)
    ensures
        match (r, rfm_config_spec(code)) {
            (Some((k, l)), Some((ks, ls))) => k == ks && l@ == ls,
            (None, None) => true,
            _ => false,
        },
{
    match code {
        1 => Some((Kind::Node(Ctx::RfmConfigDsPowerGainConfig), "DsPowerGainConfig")),
        2 => Some((Kind::Node(Ctx::RfmConfigUsPowerGainConfig), "UsPowerGainConfig")),
        3 => Some((Kind::Node(Ctx::RfmConfigDsTiltCfg), "DsTiltCfg")),
        _ => None,
    }
}

/// The fields of the RfmConfigDsPowerGainConfig context.
pub open spec fn rfm_config_ds_power_gain_config_spec(code: u8) -> Option<(Kind, Seq<char>)> {
    match code {
        1 => Some((Kind::Leaf(Format::U8), "DsPowerGainIndex"@)),
        2 => Some((Kind::Leaf(Format::U16), "DsCfgRfmGain"@)),
        _ => None,
    }
}

fn rfm_config_ds_power_gain_config(code: u8) -> (r: Option<(Kind, &'static str)>)
    ensures
        match (r, rfm_config_ds_power_gain_config_spec(code)) {
            (Some((k, l)), Some((ks, ls))) => k == ks && l@ == ls,
            (None, None) => true,
            _ => false,
        },
{
    match code {
        1 => Some((Kind::Leaf(Format::U8), "DsPowerGainIndex")),
        2 => Some((Kind::Leaf(Format::U16), "DsCfgRfmGain")),
        _ => None,
    }
}

/// The fields of the RfmConfigUsPowerGainConfig context.
pub open spec fn rfm_config_us_power_gain_config_spec(code: u8) -> Option<(Kind, Seq<char>)> {
    match code {
        1 => Some((Kind::Leaf(Format::U8), "UsPowerGainIndex"@)),
        2 => Some((Kind::Leaf(Format::U16), "UsCfgRfmGain"@)),
        _ => None,
    }
}

fn rfm_config_us_power_gain_config(code: u8) -> (r: Option<(Kind, &'static str)>)
    ensures
        match (r, rfm_config_us_power_gain_config_spec(code)) {
            (Some((k, l)), Some((ks, ls))) => k == ks && l@ == ls,
            (None, None) => true,
            _ => false,
        },
{
    match code {
        1 => Some((Kind::Leaf(Format::U8), "UsPowerGainIndex")),
        2 => Some((Kind::Leaf(Format::U16), "UsCfgRfmGain")),
        _ => None,
    }
}

/// The fields of the RfmConfigDsTiltCfg context.
pub open spec fn rfm_config_ds_tilt_cfg_spec(code: u8) -> Option<(Kind, Seq<char>)> {
    match code {
        1 => Some((Kind::Leaf(Format::U8), "DsTiltCtrlIndex"@)),
        2 => Some((Kind::Leaf(Format::U16), "DsRfmTilt"@)),
        _ => None,
    }
}

fn rfm_config_ds_tilt_cfg(code: u8) -> (r: Option<(Kind, &'static str)>)
    ensures
        match (r, rfm_config_ds_tilt_cfg_spec(code)) {
            (Some((k, l)), Some((ks, ls))) => k == ks && l@ == ls,
            (None, None) => true,
            _ => false,
        },
{
    match code {
        1 => Some((Kind::Leaf(Format::U8), "DsTiltCtrlIndex")),
        2 => Some((Kind::Leaf(Format::U16), "DsRfmTilt")),
        _ => None,
    }
}

/// The fields of the UsScQamProfileQuery context.
pub open spec fn us_sc_qam_profile_query_spec(code: u8) -> Option<(Kind, Seq<char>)> {
    match code {
        1 => Some((Kind::Leaf(Format::NamedU8(Named::UpstreamChannelType)), "QueryScQamChannelType"@)),
        2 => Some((Kind::Leaf(Format::U32), "QueryScQamWidth"@)),
        3 => Some((Kind::Node(Ctx::UsScQamProfileQueryQueryIucCode), "QueryIucCode"@)),
        _ => None,
    }
}

fn us_sc_qam_profile_query(code: u8) -> (r: Option<(Kind, &'static str)>)
    ensures
        match (r, us_sc_qam_profile_query_spec(code)) {
            (Some((k, l)), Some((ks, ls))) => k == ks && l@ == ls,
            (None, None) => true,
            _ => false,
        },
{
    match code {
        1 => Some((Kind::Leaf(Format::NamedU8(Named::UpstreamChannelType)), "QueryScQamChannelType")),
        2 => Some((Kind::Leaf(Format::U32), "QueryScQamWidth")),
        3 => Some((Kind::Node(Ctx::UsScQamProfileQueryQueryIucCode), "QueryIucCode")),
        _ => None,
    }
}

/// The fields of the UsScQamProfileQueryQueryIucCode context.
pub open spec fn us_sc_qam_profile_query_query_iuc_code_spec(code: u8) -> Option<(Kind, Seq<char>)> {
    match code {
        1 => Some((Kind::Leaf(Format::U8), "QueryScQamCode"@)),
        2 => Some((Kind::Leaf(Format::Hex), "QueryScQamPreambleLen"@)),
        3 => Some((Kind::Leaf(Format::NamedU8(Named::PreambleType)), "QueryScQamPreambleModType"@)),
        4 => Some((Kind::Leaf(Format::NamedU8(Named::QueryScQamModulationType)), "QueryScQamModulationType"@)),
        5 => Some((Kind::Leaf(Format::U8), "QueryScQamGuardTime"@)),
        _ => None,
    }
}

fn us_sc_qam_profile_query_query_iuc_code(code: u8) -> (r: Option<(Kind, &'static str)>)
    ensures
        match (r, us_sc_qam_profile_query_query_iuc_code_spec(code)) {
            (Some((k, l)), Some((ks, ls))) => k == ks && l@ == ls,
            (None, None) => true,
            _ => false,
        },
{
    match code {
        1 => Some((Kind::Leaf(Format::U8), "QueryScQamCode")),
        2 => Some((Kind::Leaf(Format::Hex), "QueryScQamPreambleLen")),
        3 => Some((Kind::Leaf(Format::NamedU8(Named::PreambleType)), "QueryScQamPreambleModType")),
        4 => Some((Kind::Leaf(Format::NamedU8(Named::QueryScQamModulationType)), "QueryScQamModulationType")),
        5 => Some((Kind::Leaf(Format::U8), "QueryScQamGuardTime")),
        _ => None,
    }
}

/// The fields of the UsScQamProfileResponse context.
pub open spec fn us_sc_qam_profile_response_spec(code: u8) -> Option<(Kind, Seq<char>)> {
    match code {
        1 => Some((Kind::Leaf(Format::Hex), "ResponseScQamPreambleString"@)),
        2 => Some((Kind::Node(Ctx::UsScQamProfileResponseResponseIucCode), "ResponseIucCode"@)),
        _ => None,
    }
}

fn us_sc_qam_profile_response(code: u8) -> (r: Option<(Kind, &'static str)>)
    ensures
        match (r, us_sc_qam_profile_response_spec(code)) {
            (Some((k, l)), Some((ks, ls))) => k == ks && l@ == ls,
            (None, None) => true,
            _ => false,
        },
{
    match code {
        1 => Some((Kind::Leaf(Format::Hex), "ResponseScQamPreambleString")),
        2 => Some((Kind::Node(Ctx::UsScQamProfileResponseResponseIucCode), "ResponseIucCode")),
        _ => None,
    }
}

/// The fields of the UsScQamProfileResponseResponseIucCode context.
pub open spec fn us_sc_qam_profile_response_response_iuc_code_spec(code: u8) -> Option<(Kind, Seq<char>)> {
    match code {
        1 => Some((Kind::Leaf(Format::U8), "ResponseScQamCode"@)),
        2 => Some((Kind::Leaf(Format::U16), "ResponseScQamPreambleLen"@)),
        3 => Some((Kind::Leaf(Format::U16), "ResponseScQamPreambleOffset"@)),
        4 => Some((Kind::Leaf(Format::NamedU8(Named::PreambleType)), "ResponseScQamPreambleModType"@)),
        5 => Some((Kind::Leaf(Format::U16), "ResponseScQamScramblerSeed"@)),
        6 => Some((Kind::Leaf(Format::U8), "ResponseScQamGuardTime"@)),
        _ => None,
    }
}

fn us_sc_qam_profile_response_response_iuc_code(code: u8) -> (r: Option<(Kind, &'static str)>)
    ensures
        match (r, us_sc_qam_profile_response_response_iuc_code_spec(code)) {
            (Some((k, l)), Some((ks, ls))) => k == ks && l@ == ls,
            (None, None) => true,
            _ => false,
        },
{
    match code {
        1 => Some((Kind::Leaf(Format::U8), "ResponseScQamCode")),
        2 => Some((Kind::Leaf(Format::U16), "ResponseScQamPreambleLen")),
        3 => Some((Kind::Leaf(Format::U16), "ResponseScQamPreambleOffset")),
        4 => Some((Kind::Leaf(Format::NamedU8(Named::PreambleType)), "ResponseScQamPreambleModType")),
        5 => Some((Kind::Leaf(Format::U16), "ResponseScQamScramblerSeed")),
        6 => Some((Kind::Leaf(Format::U8), "ResponseScQamGuardTime")),
        _ => None,
    }
}

/// The description of byte `v` under a choice.
pub open spec fn choice_spec(c: Choice, v: u8) -> Seq<char> {
    match c {
        Choice::RfChannelDsOob55d1RfMute => match v {
            0 => "(0) - Channel is not muted."@,
            1 => "(1) - Channel is muted."@,
            _ => "Reserved"@,
        },
        Choice::RfChannelDsOob55d1SfPowerAdjust => match v {
            0 => "(0) - Channel is not muted."@,
            1 => "(1) - Channel is muted."@,
            _ => "Reserved"@,
        },
        Choice::StaticPwStatusCommonStaticPwStatusDirection => match v {
            0 => "(0) - forward direction pseudowire (from CCAP Core to the RPD)."@,
            1 => "(1) - return direction pseudowire (from RPD to the CCAP Core)."@,
            _ => "Reserved"@,
        },
        Choice::NotificationTypeNotificationType => match v {
            1 => "1 - StartUpNotification"@,
            2 => "2 - RedirectResultNotification"@,
            3 => "3 - PtpResultNotification"@,
            4 => "4 - AuxCoreResultNotification"@,
            5 => "5 - TimeOutNotification"@,
            6 => "6 - Deprecated"@,
            7 => "7 - ReconnectNotification"@,
            8 => "8 - AuxCoreGcpStatusNotification"@,
            9 => "9 - ChannelUcdRefreshRequest"@,
            10 => "10 - HandoverNotification"@,
            11 => "11 - SsdFailureNotification"@,
            _ => "NotificationType"@,
        },
        Choice::GcpHandoverControlGcpHandoverControlAction => match v {
            0 => "(0) - noAction."@,
            1 => "(1) - InitiateHandover."@,
            _ => "Reserved"@,
        },
        Choice::GcpHandoverControlL2TPv3 => match v {
            0 => "(0) - noAction."@,
            1 => "(1) - tearDown."@,
            2 => "(2) - keepActive."@,
            _ => "Reserved"@,
        },
        Choice::RpdGlobalEvCfgNotifyEnable => match v {
            0 => "(0) - The RPD is not enabled to send event reports via Notify message."@,
            1 => "(1) - The RPD is enabled to send event reports via Notify message."@,
            _ => "Reserved"@,
        },
        Choice::RpdGlobalIpConfigIpStackControl => match v {
            0 => "(0) - Dual stack IP mode operation."@,
            1 => "(1) - IPv4-only operation."@,
            2 => "(2) - IPv6-only operation."@,
            _ => "Reserved"@,
        },
        Choice::RpdGlobalIpConfigUseIcmpBasedPmtud => match v {
            0 => "(0) - The RPD does not use PMTUD based on RFC4821."@,
            1 => "(1) - The RPD uses PMTUD based on RFC4821."@,
            _ => "Reserved"@,
        },
        Choice::RpdGlobalUepiControlUepiControl => match v {
            0 => "(0) - The RPD does not use the UEPI RNG-REQ pseudowires for SC-QAM channels."@,
            1 => "(1) - The RPD uses the UEPI RNG-REQ pseudowires for SC- QAM channels."@,
            _ => "Reserved"@,
        },
        Choice::RpdGlobalLldpConfigLldpConfig => match v {
            0 => "(0) - LLDP is disabled."@,
            1 => "(1) - LLDP is enabled."@,
            _ => "Reserved"@,
        },
        Choice::RpdCapabilitiesSupportsUdpEncap => match v {
            0 => "(0) - The RPD does not support UDP encapsulation on L2TPv3 pseudowires."@,
            1 => "(1) - The RPD supports UDP encapsulation on L2TPv3 pseudowires."@,
            _ => "Unknown"@,
        },
        Choice::RpdCapabilitiesSupportsFlowTags => match v {
            0 => "(0) - The RPD does not support Flow Tags."@,
            1 => "(1) - The RPD supports FlowTags."@,
            _ => "Reserved"@,
        },
        Choice::RpdCapabilitiesSupportsFrequencyTilt => match v {
            0 => "(0) - The RPD does not support Frequency Tilt settings."@,
            1 => "(1) - The RPD supports Frequency Tilt settings."@,
            _ => "Reserved"@,
        },
        Choice::RpdCapabilitiesBufferDepthConfigurationSupport => match v {
            0 => "(0) - OFDM channels."@,
            1 => "(1) - SC-QAM DOCSIS channels."@,
            _ => "Reserved"@,
        },
        Choice::RpdCapabilitiesSupportMultiSectionTimingMerReporting => match v {
            0 => "(0) - The RPD does not support Multi-Section Timing and MER Reporting."@,
            1 => "(1) - The RPD supports equally spaced non-overlapping sections."@,
            2 => "(2) - The RPD supports fully flexible sections and spacing of non-overlapping sections."@,
            _ => "Reserved"@,
        },
        Choice::RpdCapabilitiesDirectDsFlowQueueMapping => match v {
            0 => "(0) - The RPD does not support optical node RF technology."@,
            1 => "(1) - The RPD supports optical node RF technology."@,
            _ => "Reserved"@,
        },
        Choice::RpdCapabilitiesSupportsOpticalNodeRf => match v {
            0 => "(0) - The RPD does not support optical node RF technology."@,
            1 => "(1) - The RPD supports optical node RF technology."@,
            _ => "Reserved"@,
        },
        Choice::RpdCapabilitiesSupportsFlowTagIncrement => match v {
            0 => "(0) - The RPD does not support the FlowTagIncrement TLV."@,
            1 => "(1) - The RPD supports the FlowTagIncrement TLV."@,
            _ => "Reserved"@,
        },
        Choice::RpdCapabilitiesPilotToneCapabilitiesQamAsPilot => match v {
            0 => "(0) - The RPD does not support configuration of QAM channels as CW tones."@,
            1 => "(1) - The RPD supports configuration of QAM channels as CW tones."@,
            _ => "Reserved"@,
        },
        Choice::RpdCapabilitiesStaticPwCapabilitiesSupportsMptDepiPw => match v {
            0 => "(0) - RPD does not support DEPI MPT static pseudowires."@,
            1 => "(1) - RPD supports DEPI MPT static pseudowires."@,
            _ => "Reserved"@,
        },
        Choice::RpdCapabilitiesStaticPwCapabilitiesSupportsMpt55d1RetPw => match v {
            0 => "(0) - RPD does not support SCTE 55-1 return static pseudowires. "@,
            1 => "(1) - RPD supports SCTE 55-1 return static pseudowires."@,
            _ => "Reserved"@,
        },
        Choice::RpdCapabilitiesStaticPwCapabilitiesSupportsPspNdfMcastPw => match v {
            0 => "(0) - RPD does not support multicast PSP-NDF static pseudowires."@,
            1 => "(1) - RPD supports multicast PSP-NDF static pseudowires."@,
            _ => "Reserved"@,
        },
        Choice::RpdCapabilitiesStaticPwCapabilitiesSupportsPspNdrPw => match v {
            0 => "(0) - RPD does not support PSP-NDR static pseudowires."@,
            1 => "(1) - RPD supports PSP-NDR static pseudowires."@,
            _ => "Reserved"@,
        },
        Choice::RpdCapabilitiesStaticPwCapabilitiesSupportsPspNdfUcastPw => match v {
            0 => "0 - RPD does not support unicast PSP-NDF static pseudowires."@,
            1 => "1 - RPD supports unicast PSP-NDF static pseudowires."@,
            _ => "Reserved"@,
        },
        Choice::RpdCapabilitiesStaticPwCapabilitiesSupportsPspPnmPw => match v {
            0 => "0 - RPD does not support PSP-PNM static pseudowires."@,
            1 => "1 - RPD supports PSP-PNM static pseudowires."@,
            _ => "Reserved"@,
        },
        Choice::RpdCapabilitiesStaticPwCapabilitiesSupportsPspSpecmanPw => match v {
            0 => "0 - RPD does not support PSP-SPECMAN static pseudowires."@,
            1 => "1 - RPD supports PSP-SPECMAN static pseudowires."@,
            _ => "Reserved"@,
        },
        Choice::RpdCapabilitiesResetCapabilitiesSoftResetSupported => match v {
            0 => "(0) - RPD does not support softReset."@,
            1 => "(1) - RPD supports softReset."@,
            _ => "Reserved"@,
        },
        Choice::RpdCapabilitiesResetCapabilitiesNvResetSupported => match v {
            0 => "(0) - RPD does not support nvReset."@,
            1 => "(1) - RPD supports nvReset."@,
            _ => "Reserved"@,
        },
        Choice::RpdCapabilitiesResetCapabilitiesFactoryResetSupported => match v {
            0 => "(0) - RPD does not support factoryReset."@,
            1 => "(1) - RPD supports factoryReset."@,
            _ => "Reserved"@,
        },
        Choice::RpdCapabilitiesSpectrumCaptureCapabilitiesSacCapabilitiesSupportsAveraging => match v {
            0 => "(0) - SAC does not support averaging."@,
            1 => "(1) - SAC supports spectrum averaging.."@,
            _ => "Reserved"@,
        },
        Choice::RpdCapabilitiesSpectrumCaptureCapabilitiesSacCapabilitiesSupportsSpectrumQualification => match v {
            0 => "(0) - SAC does not support spectrum qualification feature"@,
            1 => "(1) - SAC supports spectrum qualification feature."@,
            _ => "Reserved"@,
        },
        Choice::RpdCapabilitiesSpectrumCaptureCapabilitiesSacCapabilitiesSupportedTrigChanTypes => match v {
            0 => "(0) - SC-QAM channel."@,
            1 => "(1) - OFDMA channel."@,
            _ => "Reserved"@,
        },
        Choice::RpdCapabilitiesSpectrumCaptureCapabilitiesSacCapabilitiesPwType => match v {
            0 => "(0) - PNM PW."@,
            1 => "(1) - SpecMan PW."@,
            _ => "Reserved"@,
        },
        Choice::RpdCapabilitiesSpectrumCaptureCapabilitiesSacCapabilitiesSupportsScanningCapture => match v {
            0 => "(0) - SAC does not support Port Scanning Capture."@,
            1 => "(1) - SAC supports Port Scanning Capture."@,
            _ => "Reserved"@,
        },
        Choice::RpdCapabilitiesRfmCapabilitiesSupportsRfmManagement => match v {
            0 => "(0) - The RPD does not support RFM management."@,
            1 => "(1) - The RPD supports RFM management."@,
            _ => "Reserved"@,
        },
        Choice::RpdCapabilitiesRfmCapabilitiesSupportsDsCfgRfmGain => match v {
            0 => "(0) - The RPD does not support GCP configuration of the DS RFM power gain."@,
            1 => "(1) - The RPD supports GCP configuration of the DS RFM power gain."@,
            _ => "Reserved"@,
        },
        Choice::RpdCapabilitiesRfmCapabilitiesSupportsUsCfgRfmGain => match v {
            0 => "(0) - The RPD does not support GCP configuration of the US RFM gain."@,
            1 => "(1) - The RPD supports GCP configuration of the US RFM gain."@,
            _ => "Reserved"@,
        },
        Choice::RpdCapabilitiesRfmCapabilitiesSupportsRfmDsTiltConfig => match v {
            0 => "(0) - The RPD does not support GCP configuration of the RFM DS tilt."@,
            1 => "(1) - The RPD supports GCP configuration of the RFM DS tilt."@,
            _ => "Reserved"@,
        },
        Choice::RpdCapabilitiesPmtudCapabilitiesSupportsIcmpBasedPmtud => match v {
            0 => "(0) - The RPD does not support PMTUD based on these RFCs."@,
            1 => "(1) - The RPD supports PMTUD based on these RFCs."@,
            _ => "Reserved"@,
        },
        Choice::RpdCapabilitiesPmtudCapabilitiesSupportsPacketizationBasedPmtud => match v {
            0 => "(0) - The RPD does not support PMTUD based on RFC4821."@,
            1 => "(1) - The RPD supports PMTUD based on RFC4821."@,
            _ => "Reserved"@,
        },
        Choice::StaticPwConfigFwdStaticPwConfigIsUnicast => match v {
            0 => "(0) - The pseudowire is multicast static pseudowire."@,
            1 => "(1) - The pseudowire is unicast static pseudowire."@,
            _ => "Reserved"@,
        },
        Choice::StaticPwConfigCommonStaticPwConfigEnableStatusNotification => match v {
            0 => "(0) - RpdCircuitStatus notifications are disabled."@,
            1 => "(1) - RpdCircuitStatus notifications are enabled."@,
            _ => "Reserved"@,
        },
        Choice::CcapCoreIdentificationGcpBackupConnectionConfig => match v {
            1 => "(1) - connection"@,
            2 => "(2) - noConection"@,
            _ => "Unknown"@,
        },
        Choice::DsRfPortRfMute => match v {
            0 => "(0) - Port is not muted."@,
            1 => "(1) - Port is muted."@,
            _ => "Reserved"@,
        },
        Choice::DsRfPortDedicatedToneConfigRfMute => match v {
            0 => "(0) - Generator is not muted."@,
            1 => "(1) - Generator is muted."@,
            _ => "Reserved"@,
        },
        Choice::DsScQamChannelConfigRfMute => match v {
            0 => "(0) - Channel is not muted."@,
            1 => "(1) - Channel is muted."@,
            _ => "Reserved"@,
        },
        Choice::DsScQamChannelConfigSpectrumInversionEnabled => match v {
            0 => "(0) - Channel's spectrum is not inverted."@,
            1 => "(1) - Channel's spectrum is inverted."@,
            _ => "Reserved"@,
        },
        Choice::DsScQamChannelConfigBcastChanGroup => match v {
            0 => "(0) - Channel is not incldued in a BCG."@,
            1 => "(1) - Channel is included in a BCG."@,
            _ => "Reserved"@,
        },
        Choice::DsOfdmChannelConfigRfMute => match v {
            0 => "(0) - Channel is not muted."@,
            1 => "(1) - Channel is muted."@,
            _ => "Reserved"@,
        },
        Choice::DsOfdmChannelConfigSubcarrierSpacing => match v {
            1 => "(1) - Subcarrier spacing of 25 KHz."@,
            2 => "(2) - Subcarrier spacing of 50 KHz."@,
            _ => "Reserved"@,
        },
        Choice::UsScQamChannelConfigEqualizationCoeffEnable => match v {
            0 => "(0) - Sending of EQ coefficient is suppressed."@,
            1 => "(1) - Sending of EQ coefficient is not suppressed."@,
            _ => "Reserved"@,
        },
        Choice::UsScQamChannelConfigIngressNoiseCancelEnable => match v {
            0 => "(0) - Ingress noise cancellation is not enabled."@,
            1 => "(1) - Ingress noise cancellation is enabled."@,
            _ => "Reserved"@,
        },
        Choice::UsScQamChannelConfigIntervalUsageCodeDifferentialEncoding => match v {
            0 => "(0) - Differential Encoding is off."@,
            1 => "(1) - Differential Encoding is on."@,
            _ => "Reserved"@,
        },
        Choice::UsScQamChannelConfigIntervalUsageCodePreambleModType => match v {
            1 => "(1) - QPSK0"@,
            2 => "(2) - QPSK1"@,
            _ => "Reserved"@,
        },
        Choice::UsScQamChannelConfigIntervalUsageCodeScrambler => match v {
            0 => "(0) - Scrambler is off."@,
            1 => "(1) - Scrambler is on."@,
            _ => "Reserved"@,
        },
        Choice::UsScQamChannelConfigIntervalUsageCodeLasCodewordShortened => match v {
            0 => "(0) - last codeword is fixed (not shortened)."@,
            1 => "(1) - last codeword is shortened."@,
            _ => "Reserved"@,
        },
        Choice::UsScQamChannelConfigIntervalUsageCodeByteInterleaverDepth => match v {
            0 => "(0) indicates Dynamic mode."@,
            1 => "(1) indicates R-S interleaving is disabled."@,
            _ => "Reserved"@,
        },
        Choice::UsOfdmaChannelConfigEnableFlowTags => match v {
            0 => "(0) - The RPD does not insert Flow Tags."@,
            1 => "(1) - The RPD inserts Flow Tags."@,
            _ => "Reserved"@,
        },
        Choice::UsOfdmaChannelConfigFdxConfigEcEnable => match v {
            0 => "(0) - EC for the channel is disabled."@,
            1 => "(1) - EC for the channel is enabled."@,
            _ => "Reserved"@,
        },
        Choice::UsScQamChannelPerfUcdRefreshStatusScqamUcdRefreshRequestScqam => match v {
            0 => "(0) - The RPD is not requesting to perform the UCD change procedure for the channel."@,
            1 => "(1) - The RPD is requesting to perform the UCD change procedure for the channel."@,
            _ => "Reserved"@,
        },
        Choice::UsOfdmaChannelPerfUcdRefreshStatusOfdmaUcdRefreshRequestOfdma => match v {
            0 => "(0) - The RPD is not requesting to perform the UCD change procedure for the channel."@,
            1 => "(1) - The RPD is requesting to perform the UCD change procedure for the channel."@,
            _ => "Reserved"@,
        },
        Choice::RpdStateLocalPtpSyncStatus => match v {
            0 => "(0) - RPD has not achieved PTP synchronization"@,
            1 => "(1) - RPD has achieved PTP synchronization"@,
            _ => "Reserved"@,
        },
        Choice::DsOob55d1RfMute => match v {
            0 => "(0) - Channel is not muted."@,
            1 => "(1) - Channel is muted."@,
            _ => "Reserved"@,
        },
        Choice::DsOob55d1SfRfMute => match v {
            0 => "(0) - Channel is not muted."@,
            1 => "(1) - Channel is muted."@,
            _ => "Reserved"@,
        },
    }
}

/// Describes byte `v` under a choice.
pub fn choice_label(c: Choice, v: u8) -> (r: &'static str)
    ensures
        r@ == choice_spec(c, v),
{
    match c {
        Choice::RfChannelDsOob55d1RfMute => match v {
            0 => "(0) - Channel is not muted.",
            1 => "(1) - Channel is muted.",
            _ => "Reserved",
        },
        Choice::RfChannelDsOob55d1SfPowerAdjust => match v {
            0 => "(0) - Channel is not muted.",
            1 => "(1) - Channel is muted.",
            _ => "Reserved",
        },
        Choice::StaticPwStatusCommonStaticPwStatusDirection => match v {
            0 => "(0) - forward direction pseudowire (from CCAP Core to the RPD).",
            1 => "(1) - return direction pseudowire (from RPD to the CCAP Core).",
            _ => "Reserved",
        },
        Choice::NotificationTypeNotificationType => match v {
            1 => "1 - StartUpNotification",
            2 => "2 - RedirectResultNotification",
            3 => "3 - PtpResultNotification",
            4 => "4 - AuxCoreResultNotification",
            5 => "5 - TimeOutNotification",
            6 => "6 - Deprecated",
            7 => "7 - ReconnectNotification",
            8 => "8 - AuxCoreGcpStatusNotification",
            9 => "9 - ChannelUcdRefreshRequest",
            10 => "10 - HandoverNotification",
            11 => "11 - SsdFailureNotification",
            _ => "NotificationType",
        },
        Choice::GcpHandoverControlGcpHandoverControlAction => match v {
            0 => "(0) - noAction.",
            1 => "(1) - InitiateHandover.",
            _ => "Reserved",
        },
        Choice::GcpHandoverControlL2TPv3 => match v {
            0 => "(0) - noAction.",
            1 => "(1) - tearDown.",
            2 => "(2) - keepActive.",
            _ => "Reserved",
        },
        Choice::RpdGlobalEvCfgNotifyEnable => match v {
            0 => "(0) - The RPD is not enabled to send event reports via Notify message.",
            1 => "(1) - The RPD is enabled to send event reports via Notify message.",
            _ => "Reserved",
        },
        Choice::RpdGlobalIpConfigIpStackControl => match v {
            0 => "(0) - Dual stack IP mode operation.",
            1 => "(1) - IPv4-only operation.",
            2 => "(2) - IPv6-only operation.",
            _ => "Reserved",
        },
        Choice::RpdGlobalIpConfigUseIcmpBasedPmtud => match v {
            0 => "(0) - The RPD does not use PMTUD based on RFC4821.",
            1 => "(1) - The RPD uses PMTUD based on RFC4821.",
            _ => "Reserved",
        },
        Choice::RpdGlobalUepiControlUepiControl => match v {
            0 => "(0) - The RPD does not use the UEPI RNG-REQ pseudowires for SC-QAM channels.",
            1 => "(1) - The RPD uses the UEPI RNG-REQ pseudowires for SC- QAM channels.",
            _ => "Reserved",
        },
        Choice::RpdGlobalLldpConfigLldpConfig => match v {
            0 => "(0) - LLDP is disabled.",
            1 => "(1) - LLDP is enabled.",
            _ => "Reserved",
        },
        Choice::RpdCapabilitiesSupportsUdpEncap => match v {
            0 => "(0) - The RPD does not support UDP encapsulation on L2TPv3 pseudowires.",
            1 => "(1) - The RPD supports UDP encapsulation on L2TPv3 pseudowires.",
            _ => "Unknown",
        },
        Choice::RpdCapabilitiesSupportsFlowTags => match v {
            0 => "(0) - The RPD does not support Flow Tags.",
            1 => "(1) - The RPD supports FlowTags.",
            _ => "Reserved",
        },
        Choice::RpdCapabilitiesSupportsFrequencyTilt => match v {
            0 => "(0) - The RPD does not support Frequency Tilt settings.",
            1 => "(1) - The RPD supports Frequency Tilt settings.",
            _ => "Reserved",
        },
        Choice::RpdCapabilitiesBufferDepthConfigurationSupport => match v {
            0 => "(0) - OFDM channels.",
            1 => "(1) - SC-QAM DOCSIS channels.",
            _ => "Reserved",
        },
        Choice::RpdCapabilitiesSupportMultiSectionTimingMerReporting => match v {
            0 => "(0) - The RPD does not support Multi-Section Timing and MER Reporting.",
            1 => "(1) - The RPD supports equally spaced non-overlapping sections.",
            2 => "(2) - The RPD supports fully flexible sections and spacing of non-overlapping sections.",
            _ => "Reserved",
        },
        Choice::RpdCapabilitiesDirectDsFlowQueueMapping => match v {
            0 => "(0) - The RPD does not support optical node RF technology.",
            1 => "(1) - The RPD supports optical node RF technology.",
            _ => "Reserved",
        },
        Choice::RpdCapabilitiesSupportsOpticalNodeRf => match v {
            0 => "(0) - The RPD does not support optical node RF technology.",
            1 => "(1) - The RPD supports optical node RF technology.",
            _ => "Reserved",
        },
        Choice::RpdCapabilitiesSupportsFlowTagIncrement => match v {
            0 => "(0) - The RPD does not support the FlowTagIncrement TLV.",
            1 => "(1) - The RPD supports the FlowTagIncrement TLV.",
            _ => "Reserved",
        },
        Choice::RpdCapabilitiesPilotToneCapabilitiesQamAsPilot => match v {
            0 => "(0) - The RPD does not support configuration of QAM channels as CW tones.",
            1 => "(1) - The RPD supports configuration of QAM channels as CW tones.",
            _ => "Reserved",
        },
        Choice::RpdCapabilitiesStaticPwCapabilitiesSupportsMptDepiPw => match v {
            0 => "(0) - RPD does not support DEPI MPT static pseudowires.",
            1 => "(1) - RPD supports DEPI MPT static pseudowires.",
            _ => "Reserved",
        },
        Choice::RpdCapabilitiesStaticPwCapabilitiesSupportsMpt55d1RetPw => match v {
            0 => "(0) - RPD does not support SCTE 55-1 return static pseudowires. ",
            1 => "(1) - RPD supports SCTE 55-1 return static pseudowires.",
            _ => "Reserved",
        },
        Choice::RpdCapabilitiesStaticPwCapabilitiesSupportsPspNdfMcastPw => match v {
            0 => "(0) - RPD does not support multicast PSP-NDF static pseudowires.",
            1 => "(1) - RPD supports multicast PSP-NDF static pseudowires.",
            _ => "Reserved",
        },
        Choice::RpdCapabilitiesStaticPwCapabilitiesSupportsPspNdrPw => match v {
            0 => "(0) - RPD does not support PSP-NDR static pseudowires.",
            1 => "(1) - RPD supports PSP-NDR static pseudowires.",
            _ => "Reserved",
        },
        Choice::RpdCapabilitiesStaticPwCapabilitiesSupportsPspNdfUcastPw => match v {
            0 => "0 - RPD does not support unicast PSP-NDF static pseudowires.",
            1 => "1 - RPD supports unicast PSP-NDF static pseudowires.",
            _ => "Reserved",
        },
        Choice::RpdCapabilitiesStaticPwCapabilitiesSupportsPspPnmPw => match v {
            0 => "0 - RPD does not support PSP-PNM static pseudowires.",
            1 => "1 - RPD supports PSP-PNM static pseudowires.",
            _ => "Reserved",
        },
        Choice::RpdCapabilitiesStaticPwCapabilitiesSupportsPspSpecmanPw => match v {
            0 => "0 - RPD does not support PSP-SPECMAN static pseudowires.",
            1 => "1 - RPD supports PSP-SPECMAN static pseudowires.",
            _ => "Reserved",
        },
        Choice::RpdCapabilitiesResetCapabilitiesSoftResetSupported => match v {
            0 => "(0) - RPD does not support softReset.",
            1 => "(1) - RPD supports softReset.",
            _ => "Reserved",
        },
        Choice::RpdCapabilitiesResetCapabilitiesNvResetSupported => match v {
            0 => "(0) - RPD does not support nvReset.",
            1 => "(1) - RPD supports nvReset.",
            _ => "Reserved",
        },
        Choice::RpdCapabilitiesResetCapabilitiesFactoryResetSupported => match v {
            0 => "(0) - RPD does not support factoryReset.",
            1 => "(1) - RPD supports factoryReset.",
            _ => "Reserved",
        },
        Choice::RpdCapabilitiesSpectrumCaptureCapabilitiesSacCapabilitiesSupportsAveraging => match v {
            0 => "(0) - SAC does not support averaging.",
            1 => "(1) - SAC supports spectrum averaging..",
            _ => "Reserved",
        },
        Choice::RpdCapabilitiesSpectrumCaptureCapabilitiesSacCapabilitiesSupportsSpectrumQualification => match v {
            0 => "(0) - SAC does not support spectrum qualification feature",
            1 => "(1) - SAC supports spectrum qualification feature.",
            _ => "Reserved",
        },
        Choice::RpdCapabilitiesSpectrumCaptureCapabilitiesSacCapabilitiesSupportedTrigChanTypes => match v {
            0 => "(0) - SC-QAM channel.",
            1 => "(1) - OFDMA channel.",
            _ => "Reserved",
        },
        Choice::RpdCapabilitiesSpectrumCaptureCapabilitiesSacCapabilitiesPwType => match v {
            0 => "(0) - PNM PW.",
            1 => "(1) - SpecMan PW.",
            _ => "Reserved",
        },
        Choice::RpdCapabilitiesSpectrumCaptureCapabilitiesSacCapabilitiesSupportsScanningCapture => match v {
            0 => "(0) - SAC does not support Port Scanning Capture.",
            1 => "(1) - SAC supports Port Scanning Capture.",
            _ => "Reserved",
        },
        Choice::RpdCapabilitiesRfmCapabilitiesSupportsRfmManagement => match v {
            0 => "(0) - The RPD does not support RFM management.",
            1 => "(1) - The RPD supports RFM management.",
            _ => "Reserved",
        },
        Choice::RpdCapabilitiesRfmCapabilitiesSupportsDsCfgRfmGain => match v {
            0 => "(0) - The RPD does not support GCP configuration of the DS RFM power gain.",
            1 => "(1) - The RPD supports GCP configuration of the DS RFM power gain.",
            _ => "Reserved",
        },
        Choice::RpdCapabilitiesRfmCapabilitiesSupportsUsCfgRfmGain => match v {
            0 => "(0) - The RPD does not support GCP configuration of the US RFM gain.",
            1 => "(1) - The RPD supports GCP configuration of the US RFM gain.",
            _ => "Reserved",
        },
        Choice::RpdCapabilitiesRfmCapabilitiesSupportsRfmDsTiltConfig => match v {
            0 => "(0) - The RPD does not support GCP configuration of the RFM DS tilt.",
            1 => "(1) - The RPD supports GCP configuration of the RFM DS tilt.",
            _ => "Reserved",
        },
        Choice::RpdCapabilitiesPmtudCapabilitiesSupportsIcmpBasedPmtud => match v {
            0 => "(0) - The RPD does not support PMTUD based on these RFCs.",
            1 => "(1) - The RPD supports PMTUD based on these RFCs.",
            _ => "Reserved",
        },
        Choice::RpdCapabilitiesPmtudCapabilitiesSupportsPacketizationBasedPmtud => match v {
            0 => "(0) - The RPD does not support PMTUD based on RFC4821.",
            1 => "(1) - The RPD supports PMTUD based on RFC4821.",
            _ => "Reserved",
        },
        Choice::StaticPwConfigFwdStaticPwConfigIsUnicast => match v {
            0 => "(0) - The pseudowire is multicast static pseudowire.",
            1 => "(1) - The pseudowire is unicast static pseudowire.",
            _ => "Reserved",
        },
        Choice::StaticPwConfigCommonStaticPwConfigEnableStatusNotification => match v {
            0 => "(0) - RpdCircuitStatus notifications are disabled.",
            1 => "(1) - RpdCircuitStatus notifications are enabled.",
            _ => "Reserved",
        },
        Choice::CcapCoreIdentificationGcpBackupConnectionConfig => match v {
            1 => "(1) - connection",
            2 => "(2) - noConection",
            _ => "Unknown",
        },
        Choice::DsRfPortRfMute => match v {
            0 => "(0) - Port is not muted.",
            1 => "(1) - Port is muted.",
            _ => "Reserved",
        },
        Choice::DsRfPortDedicatedToneConfigRfMute => match v {
            0 => "(0) - Generator is not muted.",
            1 => "(1) - Generator is muted.",
            _ => "Reserved",
        },
        Choice::DsScQamChannelConfigRfMute => match v {
            0 => "(0) - Channel is not muted.",
            1 => "(1) - Channel is muted.",
            _ => "Reserved",
        },
        Choice::DsScQamChannelConfigSpectrumInversionEnabled => match v {
            0 => "(0) - Channel's spectrum is not inverted.",
            1 => "(1) - Channel's spectrum is inverted.",
            _ => "Reserved",
        },
        Choice::DsScQamChannelConfigBcastChanGroup => match v {
            0 => "(0) - Channel is not incldued in a BCG.",
            1 => "(1) - Channel is included in a BCG.",
            _ => "Reserved",
        },
        Choice::DsOfdmChannelConfigRfMute => match v {
            0 => "(0) - Channel is not muted.",
            1 => "(1) - Channel is muted.",
            _ => "Reserved",
        },
        Choice::DsOfdmChannelConfigSubcarrierSpacing => match v {
            1 => "(1) - Subcarrier spacing of 25 KHz.",
            2 => "(2) - Subcarrier spacing of 50 KHz.",
            _ => "Reserved",
        },
        Choice::UsScQamChannelConfigEqualizationCoeffEnable => match v {
            0 => "(0) - Sending of EQ coefficient is suppressed.",
            1 => "(1) - Sending of EQ coefficient is not suppressed.",
            _ => "Reserved",
        },
        Choice::UsScQamChannelConfigIngressNoiseCancelEnable => match v {
            0 => "(0) - Ingress noise cancellation is not enabled.",
            1 => "(1) - Ingress noise cancellation is enabled.",
            _ => "Reserved",
        },
        Choice::UsScQamChannelConfigIntervalUsageCodeDifferentialEncoding => match v {
            0 => "(0) - Differential Encoding is off.",
            1 => "(1) - Differential Encoding is on.",
            _ => "Reserved",
        },
        Choice::UsScQamChannelConfigIntervalUsageCodePreambleModType => match v {
            1 => "(1) - QPSK0",
            2 => "(2) - QPSK1",
            _ => "Reserved",
        },
        Choice::UsScQamChannelConfigIntervalUsageCodeScrambler => match v {
            0 => "(0) - Scrambler is off.",
            1 => "(1) - Scrambler is on.",
            _ => "Reserved",
        },
        Choice::UsScQamChannelConfigIntervalUsageCodeLasCodewordShortened => match v {
            0 => "(0) - last codeword is fixed (not shortened).",
            1 => "(1) - last codeword is shortened.",
            _ => "Reserved",
        },
        Choice::UsScQamChannelConfigIntervalUsageCodeByteInterleaverDepth => match v {
            0 => "(0) indicates Dynamic mode.",
            1 => "(1) indicates R-S interleaving is disabled.",
            _ => "Reserved",
        },
        Choice::UsOfdmaChannelConfigEnableFlowTags => match v {
            0 => "(0) - The RPD does not insert Flow Tags.",
            1 => "(1) - The RPD inserts Flow Tags.",
            _ => "Reserved",
        },
        Choice::UsOfdmaChannelConfigFdxConfigEcEnable => match v {
            0 => "(0) - EC for the channel is disabled.",
            1 => "(1) - EC for the channel is enabled.",
            _ => "Reserved",
        },
        Choice::UsScQamChannelPerfUcdRefreshStatusScqamUcdRefreshRequestScqam => match v {
            0 => "(0) - The RPD is not requesting to perform the UCD change procedure for the channel.",
            1 => "(1) - The RPD is requesting to perform the UCD change procedure for the channel.",
            _ => "Reserved",
        },
        Choice::UsOfdmaChannelPerfUcdRefreshStatusOfdmaUcdRefreshRequestOfdma => match v {
            0 => "(0) - The RPD is not requesting to perform the UCD change procedure for the channel.",
            1 => "(1) - The RPD is requesting to perform the UCD change procedure for the channel.",
            _ => "Reserved",
        },
        Choice::RpdStateLocalPtpSyncStatus => match v {
            0 => "(0) - RPD has not achieved PTP synchronization",
            1 => "(1) - RPD has achieved PTP synchronization",
            _ => "Reserved",
        },
        Choice::DsOob55d1RfMute => match v {
            0 => "(0) - Channel is not muted.",
            1 => "(1) - Channel is muted.",
            _ => "Reserved",
        },
        Choice::DsOob55d1SfRfMute => match v {
            0 => "(0) - Channel is not muted.",
            1 => "(1) - Channel is muted.",
            _ => "Reserved",
        },
    }
}

/// The width in bits of a bitmask and its flags, each as bit position and name.
pub open spec fn flags_spec(f: Flags) -> (nat, Seq<(nat, Seq<char>)>) {
    match f {
        Flags::RpdCapabilitiesBufferDepthMonitorAlertSupport => (8, seq![(7nat, "OFDM channels"@), (6nat, "SC-QAM DOCSIS channels"@), (5nat, "SC-QAM Video channels"@), (4nat, "NDF channels"@), (3nat, "55-1 channels"@), (2nat, "55-2 channels"@)]),
        Flags::RpdCapabilitiesDsCapabilitiesDsScqamInterleaverSupport => (32, seq![(30nat, "taps8Increment16"@), (29nat, "taps16Increment8"@), (28nat, "taps32Increment4"@), (27nat, "taps64Increment2"@), (26nat, "taps128Increment1"@), (25nat, "taps12increment17"@), (24nat, "taps128Increment2"@), (23nat, "taps128Increment3"@), (22nat, "taps128Increment4"@), (21nat, "taps128Increment5"@), (20nat, "taps128Increment6"@), (19nat, "taps128Increment7"@), (18nat, "taps128Increment8"@)]),
        Flags::RpdCapabilitiesSpectrumCaptureCapabilitiesSacCapabilitiesSupportedTriggerModes => (32, seq![(31nat, "freeRunning"@), (30nat, "miniSlotCount"@), (29nat, "sid"@), (28nat, "not used"@), (27nat, "quietProbeSymbol"@), (26nat, "burstIuc"@), (25nat, "timestamp"@), (24nat, "activeProbe"@)]),
        Flags::RpdCapabilitiesSpectrumCaptureCapabilitiesSacCapabilitiesSupportedOutputFormats => (32, seq![(31nat, "timeIQ"@), (30nat, "fftPower"@), (29nat, "rawAdc"@), (28nat, "fftIQ used"@), (27nat, "fftAmplitude"@), (26nat, "fftDb"@)]),
        Flags::RpdCapabilitiesSpectrumCaptureCapabilitiesSacCapabilitiesSupportedWindowFormats => (32, seq![(31nat, "rectangular"@), (30nat, "hann"@), (29nat, "blackmanHarris"@), (28nat, "hamming"@), (27nat, "flatTop"@), (26nat, "gaussian"@), (25nat, "chebyshev"@)]),
        Flags::StaticPwConfigCommonStaticPwConfigCircuitStatus => (16, seq![(15nat, "A bit"@), (14nat, "N bit"@)]),
        Flags::CcapCoreIdentificationCoreFunction => (16, seq![(0nat, "Principal"@), (1nat, "DOCSIS"@), (2nat, "Broadcast Video"@), (3nat, "Narrowcast Video"@), (4nat, "SCTE 55-1 OOB"@), (5nat, "SCTE 55-2 OOB"@), (6nat, "NDF"@), (7nat, "NDR"@)]),
    }
}

/// The width in bits of a bitmask.
pub fn flags_width(f: Flags) -> (r: usize)
    ensures
        r == flags_spec(f).0,
        r == 8 || r == 16 || r == 32,
{
    match f {
        Flags::RpdCapabilitiesBufferDepthMonitorAlertSupport => 8,
        Flags::RpdCapabilitiesDsCapabilitiesDsScqamInterleaverSupport => 32,
        Flags::RpdCapabilitiesSpectrumCaptureCapabilitiesSacCapabilitiesSupportedTriggerModes => 32,
        Flags::RpdCapabilitiesSpectrumCaptureCapabilitiesSacCapabilitiesSupportedOutputFormats => 32,
        Flags::RpdCapabilitiesSpectrumCaptureCapabilitiesSacCapabilitiesSupportedWindowFormats => 32,
        Flags::StaticPwConfigCommonStaticPwConfigCircuitStatus => 16,
        Flags::CcapCoreIdentificationCoreFunction => 16,
    }
}

/// The number of flags of a bitmask.
pub fn flags_count(f: Flags) -> (r: usize)
    ensures
        r == flags_spec(f).1.len(),
{
    match f {
        Flags::RpdCapabilitiesBufferDepthMonitorAlertSupport => 6,
        Flags::RpdCapabilitiesDsCapabilitiesDsScqamInterleaverSupport => 13,
        Flags::RpdCapabilitiesSpectrumCaptureCapabilitiesSacCapabilitiesSupportedTriggerModes => 8,
        Flags::RpdCapabilitiesSpectrumCaptureCapabilitiesSacCapabilitiesSupportedOutputFormats => 6,
        Flags::RpdCapabilitiesSpectrumCaptureCapabilitiesSacCapabilitiesSupportedWindowFormats => 7,
        Flags::StaticPwConfigCommonStaticPwConfigCircuitStatus => 2,
        Flags::CcapCoreIdentificationCoreFunction => 8,
    }
}

/// Flag `i` of a bitmask: its bit position and name.
pub fn flag_at(f: Flags, i: usize) -> (r: (usize, &'static str))
    requires
        i < flags_spec(f).1.len(),
    ensures
        r.0 == flags_spec(f).1[i as int].0,
        r.0 < flags_spec(f).0,
        r.1@ == flags_spec(f).1[i as int].1,
{
    match f {
        Flags::RpdCapabilitiesBufferDepthMonitorAlertSupport => match i {
            0 => (7, "OFDM channels"),
            1 => (6, "SC-QAM DOCSIS channels"),
            2 => (5, "SC-QAM Video channels"),
            3 => (4, "NDF channels"),
            4 => (3, "55-1 channels"),
            _ => (2, "55-2 channels"),
        },
        Flags::RpdCapabilitiesDsCapabilitiesDsScqamInterleaverSupport => match i {
            0 => (30, "taps8Increment16"),
            1 => (29, "taps16Increment8"),
            2 => (28, "taps32Increment4"),
            3 => (27, "taps64Increment2"),
            4 => (26, "taps128Increment1"),
            5 => (25, "taps12increment17"),
            6 => (24, "taps128Increment2"),
            7 => (23, "taps128Increment3"),
            8 => (22, "taps128Increment4"),
            9 => (21, "taps128Increment5"),
            10 => (20, "taps128Increment6"),
            11 => (19, "taps128Increment7"),
            _ => (18, "taps128Increment8"),
        },
        Flags::RpdCapabilitiesSpectrumCaptureCapabilitiesSacCapabilitiesSupportedTriggerModes => match i {
            0 => (31, "freeRunning"),
            1 => (30, "miniSlotCount"),
            2 => (29, "sid"),
            3 => (28, "not used"),
            4 => (27, "quietProbeSymbol"),
            5 => (26, "burstIuc"),
            6 => (25, "timestamp"),
            _ => (24, "activeProbe"),
        },
        Flags::RpdCapabilitiesSpectrumCaptureCapabilitiesSacCapabilitiesSupportedOutputFormats => match i {
            0 => (31, "timeIQ"),
            1 => (30, "fftPower"),
            2 => (29, "rawAdc"),
            3 => (28, "fftIQ used"),
            4 => (27, "fftAmplitude"),
            _ => (26, "fftDb"),
        },
        Flags::RpdCapabilitiesSpectrumCaptureCapabilitiesSacCapabilitiesSupportedWindowFormats => match i {
            0 => (31, "rectangular"),
            1 => (30, "hann"),
            2 => (29, "blackmanHarris"),
            3 => (28, "hamming"),
            4 => (27, "flatTop"),
            5 => (26, "gaussian"),
            _ => (25, "chebyshev"),
        },
        Flags::StaticPwConfigCommonStaticPwConfigCircuitStatus => match i {
            0 => (15, "A bit"),
            _ => (14, "N bit"),
        },
        Flags::CcapCoreIdentificationCoreFunction => match i {
            0 => (0, "Principal"),
            1 => (1, "DOCSIS"),
            2 => (2, "Broadcast Video"),
            3 => (3, "Narrowcast Video"),
            4 => (4, "SCTE 55-1 OOB"),
            5 => (5, "SCTE 55-2 OOB"),
            6 => (6, "NDF"),
            _ => (7, "NDR"),
        },
    }
}

} // verus!
