//! The two code spaces of a product message: message (product) codes and
//! symbology packet codes, and the support matrix over message codes.
use vstd::prelude::*;

verus! {

/// A message code: one of the codes of the product catalogue, or the raw
/// value of a code that the catalogue does not name.
#[derive(Clone, Copy, Debug, PartialEq, Eq, Structural)]
pub enum MessageCode {
    /// Product Request (0)
    ProductRequest,
    /// General Status (2)
    GeneralStatus,
    /// Request Response (3)
    RequestResponse,
    /// Maximum Connection Time Disable Request (4)
    MaximumConnectionTimeDisableRequest,
    /// External Data Message (5)
    ExternalDataMessage,
    /// Product List (8)
    ProductList,
    /// Sign-on Request Message (Dial -up Users) (11)
    SignOnRequestMessage,
    /// Command Parameter Message (12)
    CommandParameterMessage,
    /// Product Request Cancel (13)
    ProductRequestCancel,
    /// Command Control Message (14)
    CommandControlMessage,
    /// Bias Table Message (15)
    BiasTableMessage,
    /// Base Spectrum Width (30)
    BaseSpectrumWidth,
    /// User Selectable Storm Total Precipitation (31)
    UserSelectableStormTotalPrecipitation,
    /// Digital Hybrid Scan Reflectivity (32)
    DigitalHybridScanReflectivity,
    /// Composite Reflectivity 0.54 Nmi Resolution (37)
    CompositeReflectivity0p54Nmi,
    /// Composite Reflectivity 2.2 Nmi Resolution (38)
    CompositeReflectivity2p2Nmi,
    /// Echo Tops (41)
    EchoTops,
    /// VAD Wind Profile (48)
    VADWindProfile,
    /// Cross Section (Reflectivity) (50)
    CrossSectionReflectivity,
    /// Cross Section (Velocity) Data Level 16 (51)
    CrossSectionVelocityDataLevel16,
    /// Storm Relative Mean Radial Velocity (56)
    StormRelativeMeanRadialVelocity,
    /// Vertically Integrated Liquid (57)
    VerticallyIntegratedLiquid,
    /// Storm Tracking Information (58)
    StormTrackingInformation,
    /// Hail Index (59)
    HailIndex,
    /// SpareGeographic and Non-geographic Alpha (60)
    SpareGeographicAndNonGeographicAlpha,
    /// Tornado Vortex Signature (61)
    TornadoVortexSignature,
    /// Storm Structure (62)
    StormStructure,
    /// Layer Composite Reflectivity Layer 1 Max (65)
    LayerCompositeReflectivityLayer1Max,
    /// Layer Composite Reflectivity Layer 2 Max (66)
    LayerCompositeReflectivityLayer2Max,
    /// Layer Composite Reflectivity - AP Removed (67)
    LayerCompositeReflectivityAPRemoved,
    /// Radar Coded Message (74)
    RadarCodedMessage,
    /// Free Text Message (75)
    FreeTextMessage,
    /// PUP Text Message (77)
    PUPTextMessage,
    /// Surface Rainfall Accumulation (1 hr) (78)
    SurfaceRainfallAccumulation1hr,
    /// Surface Rainfall Accumulation. (3 hr) (79)
    SurfaceRainfallAccumulation3hr,
    /// Storm Total Rainfall Accumulation (80)
    StormTotalRainfallAccumulation,
    /// Hourly Digital Precipitation Array (81)
    HourlyDigitalPrecipitationArray,
    /// Supplemental Precipitation Data (82)
    SupplementalPrecipitationData,
    /// Velocity Azimuth Display (84)
    VelocityAzimuthDisplay,
    /// Cross Section Velocity Data Level 8 (86)
    CrossSectionVelocityDataLevel8,
    /// Layer Composite Reflectivity (90)
    LayerCompositeReflectivity,
    /// ITWS Digital Base Velocity (93)
    ITWSDigitalBaseVelocity,
    /// Base Reflectivity Data Array (94)
    BaseReflectivityDataArray,
    /// Composite Reflectivity Edited for AP 0.54 Nmi (97)
    CompositeReflectivityEditedForAP0p54Nmi,
    /// Composite Reflectivity Edited for AP 2.2 Nmi (98)
    CompositeReflectivityEditedForAP2p2Nmi,
    /// Base Velocity Data Array (99)
    BaseVelocityDataArray,
    /// Site Adaptable parameters for VAD Wind Profile (Product 48) (100)
    SiteAdaptableParametersForVADWindProfile,
    /// Storm Track Alphanumeric Block (101)
    StormTrackAlphanumericBlock,
    /// Hail Index Alphanumeric Block (102)
    HailIndexAlphanumericBlock,
    /// TVS Alphanumeric Block (104)
    TVSAlphanumericBlock,
    /// Site Adaptable Parameters for Combined Shear (105)
    SiteAdaptableParametersForCombinedShear,
    /// Surface Rainfall (1 hr) Alphanumeric Block (107)
    SurfaceRainfall1HrAlphanumericBlock,
    /// Surface Rainfall (3 hr) Alphanumeric Block (108)
    SurfaceRainfall3hrAlphanumericBlock,
    /// Storm Total Rainfall Accumulation Alphanumeric Block (109)
    StormTotalRainfallAccumulationAlphanumericBlock,
    /// Clutter Likelihood Reflectivity Alphanumeric Block (110)
    ClutterLikelihoodReflectivityAlphanumericBlock,
    /// Clutter Likelihood Doppler Alphanumeric Block (111)
    ClutterLikelihoodDopplerAlphanumericBlock,
    /// Power Removed Control Product (113)
    PowerRemovedControlProduct,
    /// Clutter Likelihood Reflectivity (132)
    ClutterLikelihoodReflectivity,
    /// Clutter Likelihood Doppler (133)
    ClutterLikelihoodDoppler,
    /// High Resolution VIL (134)
    HighResolutionVIL,
    /// Enhanced Echo Tops (135)
    EnhancedEchoTops,
    /// User Selectable Layer Composite Reflectivity (137)
    UserSelectableLayerCompositeReflectivity,
    /// Digital Storm Total Precipitation (138)
    DigitalStormTotalPrecipitation,
    /// Gust Front MIGFA (140)
    GustFrontMIGFA,
    /// Mesocyclone Detection (141)
    MesocycloneDetection,
    /// Tornado Vortex Signature Rapid Update (143)
    TornadoVortexSignatureRapidUpdate,
    /// One-hour Snow Water Equivalent (144)
    OneHourSnowWaterEquivalent,
    /// One-hour Snow Depth (145)
    OneHourSnowDepth,
    /// Storm Total Snow Water Equivalent (146)
    StormTotalSnowWaterEquivalent,
    /// Storm Total Snow Depth (147)
    StormTotalSnowDepth,
    /// Digital Mesocyclone Detection (149)
    DigitalMesocycloneDetection,
    /// User Selectable Snow Water Equivalent (150)
    UserSelectableSnowWaterEquivalent,
    /// User Selectable Snow Depth (151)
    UserSelectableSnowDepth,
    /// Archive III Status Product Generic Data Format (152)
    ArchiveIIIStatusProductGenericDataFormat,
    /// Super Resolution Reflectivity Data Array (153)
    SuperResolutionReflectivityDataArray,
    /// Super Resolution Velocity Data Array (154)
    SuperResolutionVelocityDataArray,
    /// Super Resolution Spectrum Width Data Array (155)
    SuperResolutionSpectrumWidthDataArray,
    /// Digital Differential Reflectivity (159)
    DigitalDifferentialReflectivity,
    /// Digital Correlation Coefficient (161)
    DigitalCorrelationCoefficient,
    /// Digital Specific Differential Phase (163)
    DigitalSpecificDifferentialPhase,
    /// Digital Hydrometeor Classification (165)
    DigitalHydrometeorClassification,
    /// Melting Layer (166)
    MeltingLayer,
    /// Super Res Digital Correlation Coefficient (167)
    SuperResDigitalCorrelationCoefficient,
    /// Super Res Digital Phi (168)
    SuperResDigitalPhi,
    /// One Hour Accumulation (169)
    OneHourAccumulation,
    /// Digital Accumulation Array (170)
    DigitalAccumulationArray,
    /// Storm Total Accumulation (171)
    StormTotalAccumulation,
    /// Digital Storm Total Accumulation (172)
    DigitalStormTotalAccumulation,
    /// Digital User- Selectable Accumulation (173)
    DigitalUserSelectableAccumulation,
    /// Digital One-Hour Difference Accumulation (174)
    DigitalOneHourDifferenceAccumulation,
    /// Digital Storm Total Difference Accumulation (175)
    DigitalStormTotalDifferenceAccumulation,
    /// Digital Instantaneous Precipitation Rate (176)
    DigitalInstantaneousPrecipitationRate,
    /// Hybrid Hydrometeor Classification (177)
    HybridHydrometeorClassification,
    /// Icing Hazard Level (178)
    IcingHazardLevel,
    /// Hail Hazard Layers (179)
    HailHazardLayers,
    /// Super Resolution Digital Reflectivity Data-Quality-Edited (193)
    SuperResolutionDigitalReflectivityDataQualityEdited,
    /// Digital Reflectivity, DQA-Edited Data Array (195)
    DigitalReflectivityDQAEditedDataArray,
    /// Microburst AMDA (196)
    MicroburstAMDA,
    /// Rain Rate Classification (197)
    RainRateClassification,
    /// Shift Change ChecklistGeneric Data Format (202)
    ShiftChangeChecklistGenericDataFormat,
    /// A code that the catalogue does not name.
    Unknown(i16),
}

impl MessageCode {
    /// The code on the wire.
    pub open spec fn spec_value(self) -> i16 {
        match self {
            MessageCode::ProductRequest => 0,
            MessageCode::GeneralStatus => 2,
            MessageCode::RequestResponse => 3,
            MessageCode::MaximumConnectionTimeDisableRequest => 4,
            MessageCode::ExternalDataMessage => 5,
            MessageCode::ProductList => 8,
            MessageCode::SignOnRequestMessage => 11,
            MessageCode::CommandParameterMessage => 12,
            MessageCode::ProductRequestCancel => 13,
            MessageCode::CommandControlMessage => 14,
            MessageCode::BiasTableMessage => 15,
            MessageCode::BaseSpectrumWidth => 30,
            MessageCode::UserSelectableStormTotalPrecipitation => 31,
            MessageCode::DigitalHybridScanReflectivity => 32,
            MessageCode::CompositeReflectivity0p54Nmi => 37,
            MessageCode::CompositeReflectivity2p2Nmi => 38,
            MessageCode::EchoTops => 41,
            MessageCode::VADWindProfile => 48,
            MessageCode::CrossSectionReflectivity => 50,
            MessageCode::CrossSectionVelocityDataLevel16 => 51,
            MessageCode::StormRelativeMeanRadialVelocity => 56,
            MessageCode::VerticallyIntegratedLiquid => 57,
            MessageCode::StormTrackingInformation => 58,
            MessageCode::HailIndex => 59,
            MessageCode::SpareGeographicAndNonGeographicAlpha => 60,
            MessageCode::TornadoVortexSignature => 61,
            MessageCode::StormStructure => 62,
            MessageCode::LayerCompositeReflectivityLayer1Max => 65,
            MessageCode::LayerCompositeReflectivityLayer2Max => 66,
            MessageCode::LayerCompositeReflectivityAPRemoved => 67,
            MessageCode::RadarCodedMessage => 74,
            MessageCode::FreeTextMessage => 75,
            MessageCode::PUPTextMessage => 77,
            MessageCode::SurfaceRainfallAccumulation1hr => 78,
            MessageCode::SurfaceRainfallAccumulation3hr => 79,
            MessageCode::StormTotalRainfallAccumulation => 80,
            MessageCode::HourlyDigitalPrecipitationArray => 81,
            MessageCode::SupplementalPrecipitationData => 82,
            MessageCode::VelocityAzimuthDisplay => 84,
            MessageCode::CrossSectionVelocityDataLevel8 => 86,
            MessageCode::LayerCompositeReflectivity => 90,
            MessageCode::ITWSDigitalBaseVelocity => 93,
            MessageCode::BaseReflectivityDataArray => 94,
            MessageCode::CompositeReflectivityEditedForAP0p54Nmi => 97,
            MessageCode::CompositeReflectivityEditedForAP2p2Nmi => 98,
            MessageCode::BaseVelocityDataArray => 99,
            MessageCode::SiteAdaptableParametersForVADWindProfile => 100,
            MessageCode::StormTrackAlphanumericBlock => 101,
            MessageCode::HailIndexAlphanumericBlock => 102,
            MessageCode::TVSAlphanumericBlock => 104,
            MessageCode::SiteAdaptableParametersForCombinedShear => 105,
            MessageCode::SurfaceRainfall1HrAlphanumericBlock => 107,
            MessageCode::SurfaceRainfall3hrAlphanumericBlock => 108,
            MessageCode::StormTotalRainfallAccumulationAlphanumericBlock => 109,
            MessageCode::ClutterLikelihoodReflectivityAlphanumericBlock => 110,
            MessageCode::ClutterLikelihoodDopplerAlphanumericBlock => 111,
            MessageCode::PowerRemovedControlProduct => 113,
            MessageCode::ClutterLikelihoodReflectivity => 132,
            MessageCode::ClutterLikelihoodDoppler => 133,
            MessageCode::HighResolutionVIL => 134,
            MessageCode::EnhancedEchoTops => 135,
            MessageCode::UserSelectableLayerCompositeReflectivity => 137,
            MessageCode::DigitalStormTotalPrecipitation => 138,
            MessageCode::GustFrontMIGFA => 140,
            MessageCode::MesocycloneDetection => 141,
            MessageCode::TornadoVortexSignatureRapidUpdate => 143,
            MessageCode::OneHourSnowWaterEquivalent => 144,
            MessageCode::OneHourSnowDepth => 145,
            MessageCode::StormTotalSnowWaterEquivalent => 146,
            MessageCode::StormTotalSnowDepth => 147,
            MessageCode::DigitalMesocycloneDetection => 149,
            MessageCode::UserSelectableSnowWaterEquivalent => 150,
            MessageCode::UserSelectableSnowDepth => 151,
            MessageCode::ArchiveIIIStatusProductGenericDataFormat => 152,
            MessageCode::SuperResolutionReflectivityDataArray => 153,
            MessageCode::SuperResolutionVelocityDataArray => 154,
            MessageCode::SuperResolutionSpectrumWidthDataArray => 155,
            MessageCode::DigitalDifferentialReflectivity => 159,
            MessageCode::DigitalCorrelationCoefficient => 161,
            MessageCode::DigitalSpecificDifferentialPhase => 163,
            MessageCode::DigitalHydrometeorClassification => 165,
            MessageCode::MeltingLayer => 166,
            MessageCode::SuperResDigitalCorrelationCoefficient => 167,
            MessageCode::SuperResDigitalPhi => 168,
            MessageCode::OneHourAccumulation => 169,
            MessageCode::DigitalAccumulationArray => 170,
            MessageCode::StormTotalAccumulation => 171,
            MessageCode::DigitalStormTotalAccumulation => 172,
            MessageCode::DigitalUserSelectableAccumulation => 173,
            MessageCode::DigitalOneHourDifferenceAccumulation => 174,
            MessageCode::DigitalStormTotalDifferenceAccumulation => 175,
            MessageCode::DigitalInstantaneousPrecipitationRate => 176,
            MessageCode::HybridHydrometeorClassification => 177,
            MessageCode::IcingHazardLevel => 178,
            MessageCode::HailHazardLayers => 179,
            MessageCode::SuperResolutionDigitalReflectivityDataQualityEdited => 193,
            MessageCode::DigitalReflectivityDQAEditedDataArray => 195,
            MessageCode::MicroburstAMDA => 196,
            MessageCode::RainRateClassification => 197,
            MessageCode::ShiftChangeChecklistGenericDataFormat => 202,
            MessageCode::Unknown(raw) => raw,
        }
    }

    /// The variant that carries `code`: the named one where the catalogue
    /// names it, else `Unknown(code)`.
    pub open spec fn spec_from_value(code: i16) -> MessageCode {
        match code {
            0 => MessageCode::ProductRequest,
            2 => MessageCode::GeneralStatus,
            3 => MessageCode::RequestResponse,
            4 => MessageCode::MaximumConnectionTimeDisableRequest,
            5 => MessageCode::ExternalDataMessage,
            8 => MessageCode::ProductList,
            11 => MessageCode::SignOnRequestMessage,
            12 => MessageCode::CommandParameterMessage,
            13 => MessageCode::ProductRequestCancel,
            14 => MessageCode::CommandControlMessage,
            15 => MessageCode::BiasTableMessage,
            30 => MessageCode::BaseSpectrumWidth,
            31 => MessageCode::UserSelectableStormTotalPrecipitation,
            32 => MessageCode::DigitalHybridScanReflectivity,
            37 => MessageCode::CompositeReflectivity0p54Nmi,
            38 => MessageCode::CompositeReflectivity2p2Nmi,
            41 => MessageCode::EchoTops,
            48 => MessageCode::VADWindProfile,
            50 => MessageCode::CrossSectionReflectivity,
            51 => MessageCode::CrossSectionVelocityDataLevel16,
            56 => MessageCode::StormRelativeMeanRadialVelocity,
            57 => MessageCode::VerticallyIntegratedLiquid,
            58 => MessageCode::StormTrackingInformation,
            59 => MessageCode::HailIndex,
            60 => MessageCode::SpareGeographicAndNonGeographicAlpha,
            61 => MessageCode::TornadoVortexSignature,
            62 => MessageCode::StormStructure,
            65 => MessageCode::LayerCompositeReflectivityLayer1Max,
            66 => MessageCode::LayerCompositeReflectivityLayer2Max,
            67 => MessageCode::LayerCompositeReflectivityAPRemoved,
            74 => MessageCode::RadarCodedMessage,
            75 => MessageCode::FreeTextMessage,
            77 => MessageCode::PUPTextMessage,
            78 => MessageCode::SurfaceRainfallAccumulation1hr,
            79 => MessageCode::SurfaceRainfallAccumulation3hr,
            80 => MessageCode::StormTotalRainfallAccumulation,
            81 => MessageCode::HourlyDigitalPrecipitationArray,
            82 => MessageCode::SupplementalPrecipitationData,
            84 => MessageCode::VelocityAzimuthDisplay,
            86 => MessageCode::CrossSectionVelocityDataLevel8,
            90 => MessageCode::LayerCompositeReflectivity,
            93 => MessageCode::ITWSDigitalBaseVelocity,
            94 => MessageCode::BaseReflectivityDataArray,
            97 => MessageCode::CompositeReflectivityEditedForAP0p54Nmi,
            98 => MessageCode::CompositeReflectivityEditedForAP2p2Nmi,
            99 => MessageCode::BaseVelocityDataArray,
            100 => MessageCode::SiteAdaptableParametersForVADWindProfile,
            101 => MessageCode::StormTrackAlphanumericBlock,
            102 => MessageCode::HailIndexAlphanumericBlock,
            104 => MessageCode::TVSAlphanumericBlock,
            105 => MessageCode::SiteAdaptableParametersForCombinedShear,
            107 => MessageCode::SurfaceRainfall1HrAlphanumericBlock,
            108 => MessageCode::SurfaceRainfall3hrAlphanumericBlock,
            109 => MessageCode::StormTotalRainfallAccumulationAlphanumericBlock,
            110 => MessageCode::ClutterLikelihoodReflectivityAlphanumericBlock,
            111 => MessageCode::ClutterLikelihoodDopplerAlphanumericBlock,
            113 => MessageCode::PowerRemovedControlProduct,
            132 => MessageCode::ClutterLikelihoodReflectivity,
            133 => MessageCode::ClutterLikelihoodDoppler,
            134 => MessageCode::HighResolutionVIL,
            135 => MessageCode::EnhancedEchoTops,
            137 => MessageCode::UserSelectableLayerCompositeReflectivity,
            138 => MessageCode::DigitalStormTotalPrecipitation,
            140 => MessageCode::GustFrontMIGFA,
            141 => MessageCode::MesocycloneDetection,
            143 => MessageCode::TornadoVortexSignatureRapidUpdate,
            144 => MessageCode::OneHourSnowWaterEquivalent,
            145 => MessageCode::OneHourSnowDepth,
            146 => MessageCode::StormTotalSnowWaterEquivalent,
            147 => MessageCode::StormTotalSnowDepth,
            149 => MessageCode::DigitalMesocycloneDetection,
            150 => MessageCode::UserSelectableSnowWaterEquivalent,
            151 => MessageCode::UserSelectableSnowDepth,
            152 => MessageCode::ArchiveIIIStatusProductGenericDataFormat,
            153 => MessageCode::SuperResolutionReflectivityDataArray,
            154 => MessageCode::SuperResolutionVelocityDataArray,
            155 => MessageCode::SuperResolutionSpectrumWidthDataArray,
            159 => MessageCode::DigitalDifferentialReflectivity,
            161 => MessageCode::DigitalCorrelationCoefficient,
            163 => MessageCode::DigitalSpecificDifferentialPhase,
            165 => MessageCode::DigitalHydrometeorClassification,
            166 => MessageCode::MeltingLayer,
            167 => MessageCode::SuperResDigitalCorrelationCoefficient,
            168 => MessageCode::SuperResDigitalPhi,
            169 => MessageCode::OneHourAccumulation,
            170 => MessageCode::DigitalAccumulationArray,
            171 => MessageCode::StormTotalAccumulation,
            172 => MessageCode::DigitalStormTotalAccumulation,
            173 => MessageCode::DigitalUserSelectableAccumulation,
            174 => MessageCode::DigitalOneHourDifferenceAccumulation,
            175 => MessageCode::DigitalStormTotalDifferenceAccumulation,
            176 => MessageCode::DigitalInstantaneousPrecipitationRate,
            177 => MessageCode::HybridHydrometeorClassification,
            178 => MessageCode::IcingHazardLevel,
            179 => MessageCode::HailHazardLayers,
            193 => MessageCode::SuperResolutionDigitalReflectivityDataQualityEdited,
            195 => MessageCode::DigitalReflectivityDQAEditedDataArray,
            196 => MessageCode::MicroburstAMDA,
            197 => MessageCode::RainRateClassification,
            202 => MessageCode::ShiftChangeChecklistGenericDataFormat,
            _ => MessageCode::Unknown(code),
        }
    }

    /// The code on the wire.
    pub fn value(&self) -> (r: i16)
        ensures
            r == self.spec_value(),
    {
        match *self {
            MessageCode::ProductRequest => 0,
            MessageCode::GeneralStatus => 2,
            MessageCode::RequestResponse => 3,
            MessageCode::MaximumConnectionTimeDisableRequest => 4,
            MessageCode::ExternalDataMessage => 5,
            MessageCode::ProductList => 8,
            MessageCode::SignOnRequestMessage => 11,
            MessageCode::CommandParameterMessage => 12,
            MessageCode::ProductRequestCancel => 13,
            MessageCode::CommandControlMessage => 14,
            MessageCode::BiasTableMessage => 15,
            MessageCode::BaseSpectrumWidth => 30,
            MessageCode::UserSelectableStormTotalPrecipitation => 31,
            MessageCode::DigitalHybridScanReflectivity => 32,
            MessageCode::CompositeReflectivity0p54Nmi => 37,
            MessageCode::CompositeReflectivity2p2Nmi => 38,
            MessageCode::EchoTops => 41,
            MessageCode::VADWindProfile => 48,
            MessageCode::CrossSectionReflectivity => 50,
            MessageCode::CrossSectionVelocityDataLevel16 => 51,
            MessageCode::StormRelativeMeanRadialVelocity => 56,
            MessageCode::VerticallyIntegratedLiquid => 57,
            MessageCode::StormTrackingInformation => 58,
            MessageCode::HailIndex => 59,
            MessageCode::SpareGeographicAndNonGeographicAlpha => 60,
            MessageCode::TornadoVortexSignature => 61,
            MessageCode::StormStructure => 62,
            MessageCode::LayerCompositeReflectivityLayer1Max => 65,
            MessageCode::LayerCompositeReflectivityLayer2Max => 66,
            MessageCode::LayerCompositeReflectivityAPRemoved => 67,
            MessageCode::RadarCodedMessage => 74,
            MessageCode::FreeTextMessage => 75,
            MessageCode::PUPTextMessage => 77,
            MessageCode::SurfaceRainfallAccumulation1hr => 78,
            MessageCode::SurfaceRainfallAccumulation3hr => 79,
            MessageCode::StormTotalRainfallAccumulation => 80,
            MessageCode::HourlyDigitalPrecipitationArray => 81,
            MessageCode::SupplementalPrecipitationData => 82,
            MessageCode::VelocityAzimuthDisplay => 84,
            MessageCode::CrossSectionVelocityDataLevel8 => 86,
            MessageCode::LayerCompositeReflectivity => 90,
            MessageCode::ITWSDigitalBaseVelocity => 93,
            MessageCode::BaseReflectivityDataArray => 94,
            MessageCode::CompositeReflectivityEditedForAP0p54Nmi => 97,
            MessageCode::CompositeReflectivityEditedForAP2p2Nmi => 98,
            MessageCode::BaseVelocityDataArray => 99,
            MessageCode::SiteAdaptableParametersForVADWindProfile => 100,
            MessageCode::StormTrackAlphanumericBlock => 101,
            MessageCode::HailIndexAlphanumericBlock => 102,
            MessageCode::TVSAlphanumericBlock => 104,
            MessageCode::SiteAdaptableParametersForCombinedShear => 105,
            MessageCode::SurfaceRainfall1HrAlphanumericBlock => 107,
            MessageCode::SurfaceRainfall3hrAlphanumericBlock => 108,
            MessageCode::StormTotalRainfallAccumulationAlphanumericBlock => 109,
            MessageCode::ClutterLikelihoodReflectivityAlphanumericBlock => 110,
            MessageCode::ClutterLikelihoodDopplerAlphanumericBlock => 111,
            MessageCode::PowerRemovedControlProduct => 113,
            MessageCode::ClutterLikelihoodReflectivity => 132,
            MessageCode::ClutterLikelihoodDoppler => 133,
            MessageCode::HighResolutionVIL => 134,
            MessageCode::EnhancedEchoTops => 135,
            MessageCode::UserSelectableLayerCompositeReflectivity => 137,
            MessageCode::DigitalStormTotalPrecipitation => 138,
            MessageCode::GustFrontMIGFA => 140,
            MessageCode::MesocycloneDetection => 141,
            MessageCode::TornadoVortexSignatureRapidUpdate => 143,
            MessageCode::OneHourSnowWaterEquivalent => 144,
            MessageCode::OneHourSnowDepth => 145,
            MessageCode::StormTotalSnowWaterEquivalent => 146,
            MessageCode::StormTotalSnowDepth => 147,
            MessageCode::DigitalMesocycloneDetection => 149,
            MessageCode::UserSelectableSnowWaterEquivalent => 150,
            MessageCode::UserSelectableSnowDepth => 151,
            MessageCode::ArchiveIIIStatusProductGenericDataFormat => 152,
            MessageCode::SuperResolutionReflectivityDataArray => 153,
            MessageCode::SuperResolutionVelocityDataArray => 154,
            MessageCode::SuperResolutionSpectrumWidthDataArray => 155,
            MessageCode::DigitalDifferentialReflectivity => 159,
            MessageCode::DigitalCorrelationCoefficient => 161,
            MessageCode::DigitalSpecificDifferentialPhase => 163,
            MessageCode::DigitalHydrometeorClassification => 165,
            MessageCode::MeltingLayer => 166,
            MessageCode::SuperResDigitalCorrelationCoefficient => 167,
            MessageCode::SuperResDigitalPhi => 168,
            MessageCode::OneHourAccumulation => 169,
            MessageCode::DigitalAccumulationArray => 170,
            MessageCode::StormTotalAccumulation => 171,
            MessageCode::DigitalStormTotalAccumulation => 172,
            MessageCode::DigitalUserSelectableAccumulation => 173,
            MessageCode::DigitalOneHourDifferenceAccumulation => 174,
            MessageCode::DigitalStormTotalDifferenceAccumulation => 175,
            MessageCode::DigitalInstantaneousPrecipitationRate => 176,
            MessageCode::HybridHydrometeorClassification => 177,
            MessageCode::IcingHazardLevel => 178,
            MessageCode::HailHazardLayers => 179,
            MessageCode::SuperResolutionDigitalReflectivityDataQualityEdited => 193,
            MessageCode::DigitalReflectivityDQAEditedDataArray => 195,
            MessageCode::MicroburstAMDA => 196,
            MessageCode::RainRateClassification => 197,
            MessageCode::ShiftChangeChecklistGenericDataFormat => 202,
            MessageCode::Unknown(raw) => raw,
        }
    }

    /// Maps a wire code to its variant; a code outside the catalogue is kept
    /// as `Unknown`, never rejected.
    pub fn from_i16(code: i16) -> (r: MessageCode)
        ensures
            r == Self::spec_from_value(code),
            r.spec_value() == code,
    {
        match code {
            0 => MessageCode::ProductRequest,
            2 => MessageCode::GeneralStatus,
            3 => MessageCode::RequestResponse,
            4 => MessageCode::MaximumConnectionTimeDisableRequest,
            5 => MessageCode::ExternalDataMessage,
            8 => MessageCode::ProductList,
            11 => MessageCode::SignOnRequestMessage,
            12 => MessageCode::CommandParameterMessage,
            13 => MessageCode::ProductRequestCancel,
            14 => MessageCode::CommandControlMessage,
            15 => MessageCode::BiasTableMessage,
            30 => MessageCode::BaseSpectrumWidth,
            31 => MessageCode::UserSelectableStormTotalPrecipitation,
            32 => MessageCode::DigitalHybridScanReflectivity,
            37 => MessageCode::CompositeReflectivity0p54Nmi,
            38 => MessageCode::CompositeReflectivity2p2Nmi,
            41 => MessageCode::EchoTops,
            48 => MessageCode::VADWindProfile,
            50 => MessageCode::CrossSectionReflectivity,
            51 => MessageCode::CrossSectionVelocityDataLevel16,
            56 => MessageCode::StormRelativeMeanRadialVelocity,
            57 => MessageCode::VerticallyIntegratedLiquid,
            58 => MessageCode::StormTrackingInformation,
            59 => MessageCode::HailIndex,
            60 => MessageCode::SpareGeographicAndNonGeographicAlpha,
            61 => MessageCode::TornadoVortexSignature,
            62 => MessageCode::StormStructure,
            65 => MessageCode::LayerCompositeReflectivityLayer1Max,
            66 => MessageCode::LayerCompositeReflectivityLayer2Max,
            67 => MessageCode::LayerCompositeReflectivityAPRemoved,
            74 => MessageCode::RadarCodedMessage,
            75 => MessageCode::FreeTextMessage,
            77 => MessageCode::PUPTextMessage,
            78 => MessageCode::SurfaceRainfallAccumulation1hr,
            79 => MessageCode::SurfaceRainfallAccumulation3hr,
            80 => MessageCode::StormTotalRainfallAccumulation,
            81 => MessageCode::HourlyDigitalPrecipitationArray,
            82 => MessageCode::SupplementalPrecipitationData,
            84 => MessageCode::VelocityAzimuthDisplay,
            86 => MessageCode::CrossSectionVelocityDataLevel8,
            90 => MessageCode::LayerCompositeReflectivity,
            93 => MessageCode::ITWSDigitalBaseVelocity,
            94 => MessageCode::BaseReflectivityDataArray,
            97 => MessageCode::CompositeReflectivityEditedForAP0p54Nmi,
            98 => MessageCode::CompositeReflectivityEditedForAP2p2Nmi,
            99 => MessageCode::BaseVelocityDataArray,
            100 => MessageCode::SiteAdaptableParametersForVADWindProfile,
            101 => MessageCode::StormTrackAlphanumericBlock,
            102 => MessageCode::HailIndexAlphanumericBlock,
            104 => MessageCode::TVSAlphanumericBlock,
            105 => MessageCode::SiteAdaptableParametersForCombinedShear,
            107 => MessageCode::SurfaceRainfall1HrAlphanumericBlock,
            108 => MessageCode::SurfaceRainfall3hrAlphanumericBlock,
            109 => MessageCode::StormTotalRainfallAccumulationAlphanumericBlock,
            110 => MessageCode::ClutterLikelihoodReflectivityAlphanumericBlock,
            111 => MessageCode::ClutterLikelihoodDopplerAlphanumericBlock,
            113 => MessageCode::PowerRemovedControlProduct,
            132 => MessageCode::ClutterLikelihoodReflectivity,
            133 => MessageCode::ClutterLikelihoodDoppler,
            134 => MessageCode::HighResolutionVIL,
            135 => MessageCode::EnhancedEchoTops,
            137 => MessageCode::UserSelectableLayerCompositeReflectivity,
            138 => MessageCode::DigitalStormTotalPrecipitation,
            140 => MessageCode::GustFrontMIGFA,
            141 => MessageCode::MesocycloneDetection,
            143 => MessageCode::TornadoVortexSignatureRapidUpdate,
            144 => MessageCode::OneHourSnowWaterEquivalent,
            145 => MessageCode::OneHourSnowDepth,
            146 => MessageCode::StormTotalSnowWaterEquivalent,
            147 => MessageCode::StormTotalSnowDepth,
            149 => MessageCode::DigitalMesocycloneDetection,
            150 => MessageCode::UserSelectableSnowWaterEquivalent,
            151 => MessageCode::UserSelectableSnowDepth,
            152 => MessageCode::ArchiveIIIStatusProductGenericDataFormat,
            153 => MessageCode::SuperResolutionReflectivityDataArray,
            154 => MessageCode::SuperResolutionVelocityDataArray,
            155 => MessageCode::SuperResolutionSpectrumWidthDataArray,
            159 => MessageCode::DigitalDifferentialReflectivity,
            161 => MessageCode::DigitalCorrelationCoefficient,
            163 => MessageCode::DigitalSpecificDifferentialPhase,
            165 => MessageCode::DigitalHydrometeorClassification,
            166 => MessageCode::MeltingLayer,
            167 => MessageCode::SuperResDigitalCorrelationCoefficient,
            168 => MessageCode::SuperResDigitalPhi,
            169 => MessageCode::OneHourAccumulation,
            170 => MessageCode::DigitalAccumulationArray,
            171 => MessageCode::StormTotalAccumulation,
            172 => MessageCode::DigitalStormTotalAccumulation,
            173 => MessageCode::DigitalUserSelectableAccumulation,
            174 => MessageCode::DigitalOneHourDifferenceAccumulation,
            175 => MessageCode::DigitalStormTotalDifferenceAccumulation,
            176 => MessageCode::DigitalInstantaneousPrecipitationRate,
            177 => MessageCode::HybridHydrometeorClassification,
            178 => MessageCode::IcingHazardLevel,
            179 => MessageCode::HailHazardLayers,
            193 => MessageCode::SuperResolutionDigitalReflectivityDataQualityEdited,
            195 => MessageCode::DigitalReflectivityDQAEditedDataArray,
            196 => MessageCode::MicroburstAMDA,
            197 => MessageCode::RainRateClassification,
            202 => MessageCode::ShiftChangeChecklistGenericDataFormat,
            _ => MessageCode::Unknown(code),
        }
    }

    /// Whether the product with this code can be decoded.
    pub fn is_supported_product(&self) -> (r: bool)
        ensures
            r == is_registered(self.spec_value()),
    {
        match self.value() {
            19 | 20 | 25 | 27 | 28 | 30 | 32 | 34 | 56 | 78 | 79 | 80 | 94 | 99 | 134 | 135 | 138 | 159 | 161 | 163 | 165 | 169 | 170 | 171 | 172 | 173 | 174 | 175 | 176 | 177 | 181 | 182 | 186 => true,
            _ => false,
        }
    }

    /// The highest description version that is decoded for this product, if
    /// the support matrix registers one.
    pub fn supported_version(&self) -> (r: Option<u8>)
        ensures
            r == max_version_of(self.spec_value()),
    {
        match self.value() {
            19 => Some(0),
            20 => Some(0),
            25 => Some(0),
            27 => Some(0),
            28 => Some(0),
            30 => Some(0),
            32 => Some(2),
            34 => Some(2),
            56 => Some(0),
            78 => Some(1),
            79 => Some(1),
            80 => Some(1),
            94 => Some(0),
            99 => Some(0),
            134 => Some(1),
            135 => Some(0),
            138 => Some(2),
            159 => Some(0),
            161 => Some(0),
            163 => Some(0),
            165 => Some(1),
            169 => Some(0),
            170 => Some(0),
            171 => Some(0),
            172 => Some(1),
            173 => Some(0),
            174 => Some(0),
            175 => Some(0),
            176 => Some(0),
            177 => Some(0),
            181 => Some(0),
            182 => Some(0),
            186 => Some(0),
            _ => None,
        }
    }
}

/// The product codes of the support matrix.
pub open spec fn is_registered(code: i16) -> bool {
    code == 19 || code == 20 || code == 25 || code == 27 || code == 28 || code == 30 || code == 32 || code == 34 || code == 56 || code == 78 || code == 79 || code == 80 || code == 94 || code == 99 || code == 134 || code == 135 || code == 138 || code == 159 || code == 161 || code == 163 || code == 165 || code == 169 || code == 170 || code == 171 || code == 172 || code == 173 || code == 174 || code == 175 || code == 176 || code == 177 || code == 181 || code == 182 || code == 186
}

/// The maximum description version that the support matrix registers for
/// `code`; `None` where it registers none, and then any version is accepted.
pub open spec fn max_version_of(code: i16) -> Option<u8> {
    match code {
        19 => Some(0u8),
        20 => Some(0u8),
        25 => Some(0u8),
        27 => Some(0u8),
        28 => Some(0u8),
        30 => Some(0u8),
        32 => Some(2u8),
        34 => Some(2u8),
        56 => Some(0u8),
        78 => Some(1u8),
        79 => Some(1u8),
        80 => Some(1u8),
        94 => Some(0u8),
        99 => Some(0u8),
        134 => Some(1u8),
        135 => Some(0u8),
        138 => Some(2u8),
        159 => Some(0u8),
        161 => Some(0u8),
        163 => Some(0u8),
        165 => Some(1u8),
        169 => Some(0u8),
        170 => Some(0u8),
        171 => Some(0u8),
        172 => Some(1u8),
        173 => Some(0u8),
        174 => Some(0u8),
        175 => Some(0u8),
        176 => Some(0u8),
        177 => Some(0u8),
        181 => Some(0u8),
        182 => Some(0u8),
        186 => Some(0u8),
        _ => None,
    }
}

/// A symbology packet code: one of the packet types of the format, or the
/// raw value of a code that the format does not name.
#[derive(Clone, Copy, Debug, PartialEq, Eq, Structural)]
pub enum PacketCode {
    /// Linked Vector (6)
    LinkedVector6,
    /// Linked Vector (9)
    LinkedVector9,
    /// Unlinked Vector 7 (7)
    UnlinkedVector7,
    /// Unlinked Vector 10 (10)
    UnlinkedVector10,
    /// Contour Vector 0E03 (3587)
    ContourVector0E03,
    /// Contour Vector 0802 (2050)
    ContourVector0802,
    /// Contour Vector 3501 (13569)
    ContourVector3501,
    /// Text and Special Symbol 1 (1)
    TextAndSpecialSymbol1,
    /// Text and Special Symbol 8 (8)
    TextAndSpecialSymbol8,
    /// Text and Special Symbol 2 (2)
    TextAndSpecialSymbol2,
    /// Map Message 0E23 (3619)
    MapMessage0E23,
    /// Map Message 4E00 (19968)
    MapMessage4E00,
    /// Map Message 3521 (13601)
    MapMessage3521,
    /// Map Message 4E01 (19969)
    MapMessage4E01,
    /// Radial Data (16 Data Levels) (-20705)
    RadialDataAF1F,
    /// Raster Data BA0F (-17905)
    RasterDataBA0F,
    /// Raster Data BA07 (-17913)
    RasterDataBA07,
    /// Digital Precipitation Data Array (17)
    DigitalPrecipitationDataArray,
    /// Precipitation Rate Data Array (18)
    PrecipitationRateDataArray,
    /// Digital Radial Data Array (16)
    DigitalRadialDataArray,
    /// Vector Arrow Data (5)
    VectorArrowData,
    /// Wind Barb Data (4)
    WindBarbData,
    /// Special Graphic Symbol 3 (3)
    SpecialGraphicSymbol3,
    /// Special Graphic Symbol 11 (11)
    SpecialGraphicSymbol11,
    /// Special Graphic Symbol 12 (12)
    SpecialGraphicSymbol12,
    /// Special Graphic Symbol 13 (13)
    SpecialGraphicSymbol13,
    /// Special Graphic Symbol 14 (14)
    SpecialGraphicSymbol14,
    /// Special Graphic Symbol 15 (15)
    SpecialGraphicSymbol15,
    /// Special Graphic Symbol 19 (19)
    SpecialGraphicSymbol19,
    /// Special Graphic Symbol 23 (23)
    SpecialGraphicSymbol23,
    /// Special Graphic Symbol 24 (24)
    SpecialGraphicSymbol24,
    /// Special Graphic Symbol 25 (25)
    SpecialGraphicSymbol25,
    /// Special Graphic Symbol 26 (26)
    SpecialGraphicSymbol26,
    /// Special Graphic Symbol 20 (20)
    SpecialGraphicSymbol20,
    /// Cell Trend Data (21)
    CellTrendData,
    /// Cell Trend Volume Scan Times (22)
    CellTrendVolumeScanTimes,
    /// Generic Data (28)
    GenericData28,
    /// Generic Data (29)
    GenericData29,
    /// A code that the format does not name.
    Unknown(i16),
}

impl PacketCode {
    /// The code on the wire.
    pub open spec fn spec_value(self) -> i16 {
        match self {
            PacketCode::LinkedVector6 => 6,
            PacketCode::LinkedVector9 => 9,
            PacketCode::UnlinkedVector7 => 7,
            PacketCode::UnlinkedVector10 => 10,
            PacketCode::ContourVector0E03 => 3587,
            PacketCode::ContourVector0802 => 2050,
            PacketCode::ContourVector3501 => 13569,
            PacketCode::TextAndSpecialSymbol1 => 1,
            PacketCode::TextAndSpecialSymbol8 => 8,
            PacketCode::TextAndSpecialSymbol2 => 2,
            PacketCode::MapMessage0E23 => 3619,
            PacketCode::MapMessage4E00 => 19968,
            PacketCode::MapMessage3521 => 13601,
            PacketCode::MapMessage4E01 => 19969,
            PacketCode::RadialDataAF1F => -20705i16,
            PacketCode::RasterDataBA0F => -17905i16,
            PacketCode::RasterDataBA07 => -17913i16,
            PacketCode::DigitalPrecipitationDataArray => 17,
            PacketCode::PrecipitationRateDataArray => 18,
            PacketCode::DigitalRadialDataArray => 16,
            PacketCode::VectorArrowData => 5,
            PacketCode::WindBarbData => 4,
            PacketCode::SpecialGraphicSymbol3 => 3,
            PacketCode::SpecialGraphicSymbol11 => 11,
            PacketCode::SpecialGraphicSymbol12 => 12,
            PacketCode::SpecialGraphicSymbol13 => 13,
            PacketCode::SpecialGraphicSymbol14 => 14,
            PacketCode::SpecialGraphicSymbol15 => 15,
            PacketCode::SpecialGraphicSymbol19 => 19,
            PacketCode::SpecialGraphicSymbol23 => 23,
            PacketCode::SpecialGraphicSymbol24 => 24,
            PacketCode::SpecialGraphicSymbol25 => 25,
            PacketCode::SpecialGraphicSymbol26 => 26,
            PacketCode::SpecialGraphicSymbol20 => 20,
            PacketCode::CellTrendData => 21,
            PacketCode::CellTrendVolumeScanTimes => 22,
            PacketCode::GenericData28 => 28,
            PacketCode::GenericData29 => 29,
            PacketCode::Unknown(raw) => raw,
        }
    }

    /// The variant that carries `code`.
    pub open spec fn spec_from_value(code: i16) -> PacketCode {
        match code {
            6 => PacketCode::LinkedVector6,
            9 => PacketCode::LinkedVector9,
            7 => PacketCode::UnlinkedVector7,
            10 => PacketCode::UnlinkedVector10,
            3587 => PacketCode::ContourVector0E03,
            2050 => PacketCode::ContourVector0802,
            13569 => PacketCode::ContourVector3501,
            1 => PacketCode::TextAndSpecialSymbol1,
            8 => PacketCode::TextAndSpecialSymbol8,
            2 => PacketCode::TextAndSpecialSymbol2,
            3619 => PacketCode::MapMessage0E23,
            19968 => PacketCode::MapMessage4E00,
            13601 => PacketCode::MapMessage3521,
            19969 => PacketCode::MapMessage4E01,
            -20705 => PacketCode::RadialDataAF1F,
            -17905 => PacketCode::RasterDataBA0F,
            -17913 => PacketCode::RasterDataBA07,
            17 => PacketCode::DigitalPrecipitationDataArray,
            18 => PacketCode::PrecipitationRateDataArray,
            16 => PacketCode::DigitalRadialDataArray,
            5 => PacketCode::VectorArrowData,
            4 => PacketCode::WindBarbData,
            3 => PacketCode::SpecialGraphicSymbol3,
            11 => PacketCode::SpecialGraphicSymbol11,
            12 => PacketCode::SpecialGraphicSymbol12,
            13 => PacketCode::SpecialGraphicSymbol13,
            14 => PacketCode::SpecialGraphicSymbol14,
            15 => PacketCode::SpecialGraphicSymbol15,
            19 => PacketCode::SpecialGraphicSymbol19,
            23 => PacketCode::SpecialGraphicSymbol23,
            24 => PacketCode::SpecialGraphicSymbol24,
            25 => PacketCode::SpecialGraphicSymbol25,
            26 => PacketCode::SpecialGraphicSymbol26,
            20 => PacketCode::SpecialGraphicSymbol20,
            21 => PacketCode::CellTrendData,
            22 => PacketCode::CellTrendVolumeScanTimes,
            28 => PacketCode::GenericData28,
            29 => PacketCode::GenericData29,
            _ => PacketCode::Unknown(code),
        }
    }

    /// The code on the wire.
    pub fn value(&self) -> (r: i16)
        ensures
            r == self.spec_value(),
    {
        match *self {
            PacketCode::LinkedVector6 => 6,
            PacketCode::LinkedVector9 => 9,
            PacketCode::UnlinkedVector7 => 7,
            PacketCode::UnlinkedVector10 => 10,
            PacketCode::ContourVector0E03 => 3587,
            PacketCode::ContourVector0802 => 2050,
            PacketCode::ContourVector3501 => 13569,
            PacketCode::TextAndSpecialSymbol1 => 1,
            PacketCode::TextAndSpecialSymbol8 => 8,
            PacketCode::TextAndSpecialSymbol2 => 2,
            PacketCode::MapMessage0E23 => 3619,
            PacketCode::MapMessage4E00 => 19968,
            PacketCode::MapMessage3521 => 13601,
            PacketCode::MapMessage4E01 => 19969,
            PacketCode::RadialDataAF1F => -20705i16,
            PacketCode::RasterDataBA0F => -17905i16,
            PacketCode::RasterDataBA07 => -17913i16,
            PacketCode::DigitalPrecipitationDataArray => 17,
            PacketCode::PrecipitationRateDataArray => 18,
            PacketCode::DigitalRadialDataArray => 16,
            PacketCode::VectorArrowData => 5,
            PacketCode::WindBarbData => 4,
            PacketCode::SpecialGraphicSymbol3 => 3,
            PacketCode::SpecialGraphicSymbol11 => 11,
            PacketCode::SpecialGraphicSymbol12 => 12,
            PacketCode::SpecialGraphicSymbol13 => 13,
            PacketCode::SpecialGraphicSymbol14 => 14,
            PacketCode::SpecialGraphicSymbol15 => 15,
            PacketCode::SpecialGraphicSymbol19 => 19,
            PacketCode::SpecialGraphicSymbol23 => 23,
            PacketCode::SpecialGraphicSymbol24 => 24,
            PacketCode::SpecialGraphicSymbol25 => 25,
            PacketCode::SpecialGraphicSymbol26 => 26,
            PacketCode::SpecialGraphicSymbol20 => 20,
            PacketCode::CellTrendData => 21,
            PacketCode::CellTrendVolumeScanTimes => 22,
            PacketCode::GenericData28 => 28,
            PacketCode::GenericData29 => 29,
            PacketCode::Unknown(raw) => raw,
        }
    }

    /// Maps a wire code to its variant.
    pub fn from_i16(code: i16) -> (r: PacketCode)
        ensures
            r == Self::spec_from_value(code),
            r.spec_value() == code,
    {
        match code {
            6 => PacketCode::LinkedVector6,
            9 => PacketCode::LinkedVector9,
            7 => PacketCode::UnlinkedVector7,
            10 => PacketCode::UnlinkedVector10,
            3587 => PacketCode::ContourVector0E03,
            2050 => PacketCode::ContourVector0802,
            13569 => PacketCode::ContourVector3501,
            1 => PacketCode::TextAndSpecialSymbol1,
            8 => PacketCode::TextAndSpecialSymbol8,
            2 => PacketCode::TextAndSpecialSymbol2,
            3619 => PacketCode::MapMessage0E23,
            19968 => PacketCode::MapMessage4E00,
            13601 => PacketCode::MapMessage3521,
            19969 => PacketCode::MapMessage4E01,
            -20705 => PacketCode::RadialDataAF1F,
            -17905 => PacketCode::RasterDataBA0F,
            -17913 => PacketCode::RasterDataBA07,
            17 => PacketCode::DigitalPrecipitationDataArray,
            18 => PacketCode::PrecipitationRateDataArray,
            16 => PacketCode::DigitalRadialDataArray,
            5 => PacketCode::VectorArrowData,
            4 => PacketCode::WindBarbData,
            3 => PacketCode::SpecialGraphicSymbol3,
            11 => PacketCode::SpecialGraphicSymbol11,
            12 => PacketCode::SpecialGraphicSymbol12,
            13 => PacketCode::SpecialGraphicSymbol13,
            14 => PacketCode::SpecialGraphicSymbol14,
            15 => PacketCode::SpecialGraphicSymbol15,
            19 => PacketCode::SpecialGraphicSymbol19,
            23 => PacketCode::SpecialGraphicSymbol23,
            24 => PacketCode::SpecialGraphicSymbol24,
            25 => PacketCode::SpecialGraphicSymbol25,
            26 => PacketCode::SpecialGraphicSymbol26,
            20 => PacketCode::SpecialGraphicSymbol20,
            21 => PacketCode::CellTrendData,
            22 => PacketCode::CellTrendVolumeScanTimes,
            28 => PacketCode::GenericData28,
            29 => PacketCode::GenericData29,
            _ => PacketCode::Unknown(code),
        }
    }

    /// Whether a layer that starts with this packet code can be decoded.
    pub fn is_supported_product(&self) -> (r: bool)
        ensures
            r == is_dispatchable(self.spec_value()),
    {
        let code = self.value();
        code == DIGITAL_RADIAL || code == RUN_LENGTH_RADIAL || code == TEXT_PLAIN || code
            == TEXT_SPECIAL || code == TEXT_COLORED || code == GENERIC_DATA
    }
}

/// The packet code of a digital radial data array.
pub const DIGITAL_RADIAL: i16 = 16;

/// The packet code of a run-length encoded radial array (0xAF1F).
pub const RUN_LENGTH_RADIAL: i16 = -20705;

/// The packet code of a text packet without a color level.
pub const TEXT_PLAIN: i16 = 1;

/// The packet code of a text and special symbol packet without a color
/// level; it has the layout of code 1.
pub const TEXT_SPECIAL: i16 = 2;

/// The packet code of a text packet that carries a color level.
pub const TEXT_COLORED: i16 = 8;

/// The packet code of a generic data packet.
pub const GENERIC_DATA: i16 = 28;

/// The packet codes that a layer may start with: the two radial arrays, the
/// three text and special symbol packets (codes 1, 2 and 8), and generic
/// data. Every other code fails the layer with `PacketCodeUnsupported`.
pub open spec fn is_dispatchable(code: i16) -> bool {
    code == DIGITAL_RADIAL || code == RUN_LENGTH_RADIAL || is_text_code(code) || code
        == GENERIC_DATA
}

/// The codes of text and special symbol packets.
pub open spec fn is_text_code(code: i16) -> bool {
    code == TEXT_PLAIN || code == TEXT_SPECIAL || code == TEXT_COLORED
}

/// Decoding a message code keeps the code on the wire.
pub proof fn lemma_message_code_keeps_value(code: i16)
    ensures
        MessageCode::spec_from_value(code).spec_value() == code,
{
}

} // verus!
