//! Link-layer header types of pcap files and pcap-ng interfaces.
use vstd::prelude::*;

verus! {

/// A link-layer type value that is not one of the known `LinkType`s: the
/// raw value of the field it was read from.
#[derive(Debug, Clone, Copy, PartialEq, Eq, Structural)]
pub struct InvalidLinkType(pub u32);

/// The link-layer header type of the packets of a file or an interface.
#[derive(Debug, Clone, Copy, PartialEq, Eq, Structural)]
pub enum LinkType {
    Null,
    Ethernet,
    Ax25,
    Ieee802_5,
    ArcnetBsd,
    Slip,
    Ppp,
    Fddi,
    PppHdlc,
    PppEther,
    CHdlc,
    PppPppd,
    PppWithDir,
    CHdlcWithDir,
    FrelayWithDir,
    AtmRfc1483,
    Raw,
    Frelay,
    Mfr,
    Ieee802_11,
    Ieee802_11Prism,
    Ieee802_11Radiotap,
    Ieee802_11Avs,
    BluetoothHciH4,
    Ieee802_15_4Withfcs,
    BluetoothHciH4WithPhdr,
    Ieee802_15_4NonaskPhy,
    Ieee802_15_4Nofcs,
    BluetoothLeLl,
    BluetoothLinuxMonitor,
    BluetoothBredrBb,
    BluetoothLeLlWithPhdr,
    Ieee802_15_4Tap,
    Loop,
    LinuxSll,
    Pflog,
    ArcnetLinux,
    LinuxIrda,
    LinuxLapd,
    UsbLinux,
    UsbLinuxMmapped,
    Ipnet,
    CanSocketcan,
    Nflog,
    Netlink,
    Pktap,
    UsbDarwin,
    Vsock,
    LinuxSll2,
    Mtp2WithPhdr,
    Mtp2,
    Mtp3,
    Sccp,
    GprsLlc,
    GpfT,
    GpfF,
    IpmbLinux,
    RtacSerial,
    ProfibusDl,
    ZwaveR1R2,
    ZwaveR3,
    WattstopperDlm,
    ZWaveSerial,
    Ltalk,
    IpOverFc,
    Sunatm,
    AppleIpOverIeee1394,
    Docsis,
    BacnetMsTp,
    Sita,
    Erf,
    Ax25Kiss,
    Lapd,
    LapbWithDir,
    Fc2,
    Fc2WithFrameDelims,
    Ipv4,
    Ipv6,
    Dbus,
    DvbCi,
    Mux27010,
    Stanag5066DPdu,
    Netanalyzer,
    NetanalyzerTransparent,
    Ipoib,
    Mpeg2Ts,
    Ng40,
    NfcLlcp,
    Infiniband,
    Sctp,
    UsbPcap,
    Ppi,
    Epon,
    IpmiHpm2,
    Iso14443,
    Rds,
    Sdlc,
    Loratap,
    NordicBle,
    Docsis31Xra31,
    EthernetMpacket,
    DisplayportAux,
    Openvizsla,
    Ebhscr,
    VppDispatch,
    DsaTagBrcm,
    DsaTagBrcmPrepend,
    DsaTagDsa,
    DsaTagEdsa,
    Elee,
    Usb2_0,
    AtscAlp,
}

/// The number that stands for a link type on the wire.
#[verifier::opaque]
pub open spec fn link_type_value(t: LinkType) -> u16 {
    match t {
        LinkType::Null => 0,
        LinkType::Ethernet => 1,
        LinkType::Ax25 => 3,
        LinkType::Ieee802_5 => 6,
        LinkType::ArcnetBsd => 7,
        LinkType::Slip => 8,
        LinkType::Ppp => 9,
        LinkType::Fddi => 10,
        LinkType::PppHdlc => 50,
        LinkType::PppEther => 51,
        LinkType::CHdlc => 104,
        LinkType::PppPppd => 166,
        LinkType::PppWithDir => 204,
        LinkType::CHdlcWithDir => 205,
        LinkType::FrelayWithDir => 206,
        LinkType::AtmRfc1483 => 100,
        LinkType::Raw => 101,
        LinkType::Frelay => 107,
        LinkType::Mfr => 182,
        LinkType::Ieee802_11 => 105,
        LinkType::Ieee802_11Prism => 119,
        LinkType::Ieee802_11Radiotap => 127,
        LinkType::Ieee802_11Avs => 163,
        LinkType::BluetoothHciH4 => 187,
        LinkType::Ieee802_15_4Withfcs => 195,
        LinkType::BluetoothHciH4WithPhdr => 201,
        LinkType::Ieee802_15_4NonaskPhy => 215,
        LinkType::Ieee802_15_4Nofcs => 230,
        LinkType::BluetoothLeLl => 251,
        LinkType::BluetoothLinuxMonitor => 254,
        LinkType::BluetoothBredrBb => 255,
        LinkType::BluetoothLeLlWithPhdr => 256,
        LinkType::Ieee802_15_4Tap => 283,
        LinkType::Loop => 108,
        LinkType::LinuxSll => 113,
        LinkType::Pflog => 117,
        LinkType::ArcnetLinux => 129,
        LinkType::LinuxIrda => 144,
        LinkType::LinuxLapd => 177,
        LinkType::UsbLinux => 189,
        LinkType::UsbLinuxMmapped => 220,
        LinkType::Ipnet => 226,
        LinkType::CanSocketcan => 227,
        LinkType::Nflog => 239,
        LinkType::Netlink => 253,
        LinkType::Pktap => 258,
        LinkType::UsbDarwin => 266,
        LinkType::Vsock => 271,
        LinkType::LinuxSll2 => 276,
        LinkType::Mtp2WithPhdr => 139,
        LinkType::Mtp2 => 140,
        LinkType::Mtp3 => 141,
        LinkType::Sccp => 142,
        LinkType::GprsLlc => 169,
        LinkType::GpfT => 170,
        LinkType::GpfF => 171,
        LinkType::IpmbLinux => 209,
        LinkType::RtacSerial => 250,
        LinkType::ProfibusDl => 257,
        LinkType::ZwaveR1R2 => 261,
        LinkType::ZwaveR3 => 262,
        LinkType::WattstopperDlm => 263,
        LinkType::ZWaveSerial => 287,
        LinkType::Ltalk => 114,
        LinkType::IpOverFc => 122,
        LinkType::Sunatm => 123,
        LinkType::AppleIpOverIeee1394 => 138,
        LinkType::Docsis => 143,
        LinkType::BacnetMsTp => 165,
        LinkType::Sita => 196,
        LinkType::Erf => 197,
        LinkType::Ax25Kiss => 202,
        LinkType::Lapd => 203,
        LinkType::LapbWithDir => 207,
        LinkType::Fc2 => 224,
        LinkType::Fc2WithFrameDelims => 225,
        LinkType::Ipv4 => 228,
        LinkType::Ipv6 => 229,
        LinkType::Dbus => 231,
        LinkType::DvbCi => 235,
        LinkType::Mux27010 => 236,
        LinkType::Stanag5066DPdu => 237,
        LinkType::Netanalyzer => 240,
        LinkType::NetanalyzerTransparent => 241,
        LinkType::Ipoib => 242,
        LinkType::Mpeg2Ts => 243,
        LinkType::Ng40 => 244,
        LinkType::NfcLlcp => 245,
        LinkType::Infiniband => 247,
        LinkType::Sctp => 248,
        LinkType::UsbPcap => 249,
        LinkType::Ppi => 192,
        LinkType::Epon => 259,
        LinkType::IpmiHpm2 => 260,
        LinkType::Iso14443 => 264,
        LinkType::Rds => 265,
        LinkType::Sdlc => 268,
        LinkType::Loratap => 270,
        LinkType::NordicBle => 272,
        LinkType::Docsis31Xra31 => 273,
        LinkType::EthernetMpacket => 274,
        LinkType::DisplayportAux => 275,
        LinkType::Openvizsla => 278,
        LinkType::Ebhscr => 279,
        LinkType::VppDispatch => 280,
        LinkType::DsaTagBrcm => 281,
        LinkType::DsaTagBrcmPrepend => 282,
        LinkType::DsaTagDsa => 284,
        LinkType::DsaTagEdsa => 285,
        LinkType::Elee => 286,
        LinkType::Usb2_0 => 288,
        LinkType::AtscAlp => 289,
    }
}

/// The link type that a number stands for, if any.
#[verifier::opaque]
pub open spec fn link_type_of(v: u16) -> Option<LinkType> {
    match v {
        0 => Some(LinkType::Null),
        1 => Some(LinkType::Ethernet),
        3 => Some(LinkType::Ax25),
        6 => Some(LinkType::Ieee802_5),
        7 => Some(LinkType::ArcnetBsd),
        8 => Some(LinkType::Slip),
        9 => Some(LinkType::Ppp),
        10 => Some(LinkType::Fddi),
        50 => Some(LinkType::PppHdlc),
        51 => Some(LinkType::PppEther),
        104 => Some(LinkType::CHdlc),
        166 => Some(LinkType::PppPppd),
        204 => Some(LinkType::PppWithDir),
        205 => Some(LinkType::CHdlcWithDir),
        206 => Some(LinkType::FrelayWithDir),
        100 => Some(LinkType::AtmRfc1483),
        101 => Some(LinkType::Raw),
        107 => Some(LinkType::Frelay),
        182 => Some(LinkType::Mfr),
        105 => Some(LinkType::Ieee802_11),
        119 => Some(LinkType::Ieee802_11Prism),
        127 => Some(LinkType::Ieee802_11Radiotap),
        163 => Some(LinkType::Ieee802_11Avs),
        187 => Some(LinkType::BluetoothHciH4),
        195 => Some(LinkType::Ieee802_15_4Withfcs),
        201 => Some(LinkType::BluetoothHciH4WithPhdr),
        215 => Some(LinkType::Ieee802_15_4NonaskPhy),
        230 => Some(LinkType::Ieee802_15_4Nofcs),
        251 => Some(LinkType::BluetoothLeLl),
        254 => Some(LinkType::BluetoothLinuxMonitor),
        255 => Some(LinkType::BluetoothBredrBb),
        256 => Some(LinkType::BluetoothLeLlWithPhdr),
        283 => Some(LinkType::Ieee802_15_4Tap),
        108 => Some(LinkType::Loop),
        113 => Some(LinkType::LinuxSll),
        117 => Some(LinkType::Pflog),
        129 => Some(LinkType::ArcnetLinux),
        144 => Some(LinkType::LinuxIrda),
        177 => Some(LinkType::LinuxLapd),
        189 => Some(LinkType::UsbLinux),
        220 => Some(LinkType::UsbLinuxMmapped),
        226 => Some(LinkType::Ipnet),
        227 => Some(LinkType::CanSocketcan),
        239 => Some(LinkType::Nflog),
        253 => Some(LinkType::Netlink),
        258 => Some(LinkType::Pktap),
        266 => Some(LinkType::UsbDarwin),
        271 => Some(LinkType::Vsock),
        276 => Some(LinkType::LinuxSll2),
        139 => Some(LinkType::Mtp2WithPhdr),
        140 => Some(LinkType::Mtp2),
        141 => Some(LinkType::Mtp3),
        142 => Some(LinkType::Sccp),
        169 => Some(LinkType::GprsLlc),
        170 => Some(LinkType::GpfT),
        171 => Some(LinkType::GpfF),
        209 => Some(LinkType::IpmbLinux),
        250 => Some(LinkType::RtacSerial),
        257 => Some(LinkType::ProfibusDl),
        261 => Some(LinkType::ZwaveR1R2),
        262 => Some(LinkType::ZwaveR3),
        263 => Some(LinkType::WattstopperDlm),
        287 => Some(LinkType::ZWaveSerial),
        114 => Some(LinkType::Ltalk),
        122 => Some(LinkType::IpOverFc),
        123 => Some(LinkType::Sunatm),
        138 => Some(LinkType::AppleIpOverIeee1394),
        143 => Some(LinkType::Docsis),
        165 => Some(LinkType::BacnetMsTp),
        196 => Some(LinkType::Sita),
        197 => Some(LinkType::Erf),
        202 => Some(LinkType::Ax25Kiss),
        203 => Some(LinkType::Lapd),
        207 => Some(LinkType::LapbWithDir),
        224 => Some(LinkType::Fc2),
        225 => Some(LinkType::Fc2WithFrameDelims),
        228 => Some(LinkType::Ipv4),
        229 => Some(LinkType::Ipv6),
        231 => Some(LinkType::Dbus),
        235 => Some(LinkType::DvbCi),
        236 => Some(LinkType::Mux27010),
        237 => Some(LinkType::Stanag5066DPdu),
        240 => Some(LinkType::Netanalyzer),
        241 => Some(LinkType::NetanalyzerTransparent),
        242 => Some(LinkType::Ipoib),
        243 => Some(LinkType::Mpeg2Ts),
        244 => Some(LinkType::Ng40),
        245 => Some(LinkType::NfcLlcp),
        247 => Some(LinkType::Infiniband),
        248 => Some(LinkType::Sctp),
        249 => Some(LinkType::UsbPcap),
        192 => Some(LinkType::Ppi),
        259 => Some(LinkType::Epon),
        260 => Some(LinkType::IpmiHpm2),
        264 => Some(LinkType::Iso14443),
        265 => Some(LinkType::Rds),
        268 => Some(LinkType::Sdlc),
        270 => Some(LinkType::Loratap),
        272 => Some(LinkType::NordicBle),
        273 => Some(LinkType::Docsis31Xra31),
        274 => Some(LinkType::EthernetMpacket),
        275 => Some(LinkType::DisplayportAux),
        278 => Some(LinkType::Openvizsla),
        279 => Some(LinkType::Ebhscr),
        280 => Some(LinkType::VppDispatch),
        281 => Some(LinkType::DsaTagBrcm),
        282 => Some(LinkType::DsaTagBrcmPrepend),
        284 => Some(LinkType::DsaTagDsa),
        285 => Some(LinkType::DsaTagEdsa),
        286 => Some(LinkType::Elee),
        288 => Some(LinkType::Usb2_0),
        289 => Some(LinkType::AtscAlp),
        _ => None,
    }
}

/// The number of a link type stands for that link type again.
pub proof fn lemma_link_type_round_trip(t: LinkType)
    ensures
        link_type_of(link_type_value(t)) == Some(t),
{
    reveal(link_type_of);
    reveal(link_type_value);
}

impl LinkType {
    /// The number that stands for this link type on the wire.
    pub fn value(&self) -> (r: u16)
        ensures
            r == link_type_value(*self),
    {
        reveal(link_type_value);
        match self {
            LinkType::Null => 0,
            LinkType::Ethernet => 1,
            LinkType::Ax25 => 3,
            LinkType::Ieee802_5 => 6,
            LinkType::ArcnetBsd => 7,
            LinkType::Slip => 8,
            LinkType::Ppp => 9,
            LinkType::Fddi => 10,
            LinkType::PppHdlc => 50,
            LinkType::PppEther => 51,
            LinkType::CHdlc => 104,
            LinkType::PppPppd => 166,
            LinkType::PppWithDir => 204,
            LinkType::CHdlcWithDir => 205,
            LinkType::FrelayWithDir => 206,
            LinkType::AtmRfc1483 => 100,
            LinkType::Raw => 101,
            LinkType::Frelay => 107,
            LinkType::Mfr => 182,
            LinkType::Ieee802_11 => 105,
            LinkType::Ieee802_11Prism => 119,
            LinkType::Ieee802_11Radiotap => 127,
            LinkType::Ieee802_11Avs => 163,
            LinkType::BluetoothHciH4 => 187,
            LinkType::Ieee802_15_4Withfcs => 195,
            LinkType::BluetoothHciH4WithPhdr => 201,
            LinkType::Ieee802_15_4NonaskPhy => 215,
            LinkType::Ieee802_15_4Nofcs => 230,
            LinkType::BluetoothLeLl => 251,
            LinkType::BluetoothLinuxMonitor => 254,
            LinkType::BluetoothBredrBb => 255,
            LinkType::BluetoothLeLlWithPhdr => 256,
            LinkType::Ieee802_15_4Tap => 283,
            LinkType::Loop => 108,
            LinkType::LinuxSll => 113,
            LinkType::Pflog => 117,
            LinkType::ArcnetLinux => 129,
            LinkType::LinuxIrda => 144,
            LinkType::LinuxLapd => 177,
            LinkType::UsbLinux => 189,
            LinkType::UsbLinuxMmapped => 220,
            LinkType::Ipnet => 226,
            LinkType::CanSocketcan => 227,
            LinkType::Nflog => 239,
            LinkType::Netlink => 253,
            LinkType::Pktap => 258,
            LinkType::UsbDarwin => 266,
            LinkType::Vsock => 271,
            LinkType::LinuxSll2 => 276,
            LinkType::Mtp2WithPhdr => 139,
            LinkType::Mtp2 => 140,
            LinkType::Mtp3 => 141,
            LinkType::Sccp => 142,
            LinkType::GprsLlc => 169,
            LinkType::GpfT => 170,
            LinkType::GpfF => 171,
            LinkType::IpmbLinux => 209,
            LinkType::RtacSerial => 250,
            LinkType::ProfibusDl => 257,
            LinkType::ZwaveR1R2 => 261,
            LinkType::ZwaveR3 => 262,
            LinkType::WattstopperDlm => 263,
            LinkType::ZWaveSerial => 287,
            LinkType::Ltalk => 114,
            LinkType::IpOverFc => 122,
            LinkType::Sunatm => 123,
            LinkType::AppleIpOverIeee1394 => 138,
            LinkType::Docsis => 143,
            LinkType::BacnetMsTp => 165,
            LinkType::Sita => 196,
            LinkType::Erf => 197,
            LinkType::Ax25Kiss => 202,
            LinkType::Lapd => 203,
            LinkType::LapbWithDir => 207,
            LinkType::Fc2 => 224,
            LinkType::Fc2WithFrameDelims => 225,
            LinkType::Ipv4 => 228,
            LinkType::Ipv6 => 229,
            LinkType::Dbus => 231,
            LinkType::DvbCi => 235,
            LinkType::Mux27010 => 236,
            LinkType::Stanag5066DPdu => 237,
            LinkType::Netanalyzer => 240,
            LinkType::NetanalyzerTransparent => 241,
            LinkType::Ipoib => 242,
            LinkType::Mpeg2Ts => 243,
            LinkType::Ng40 => 244,
            LinkType::NfcLlcp => 245,
            LinkType::Infiniband => 247,
            LinkType::Sctp => 248,
            LinkType::UsbPcap => 249,
            LinkType::Ppi => 192,
            LinkType::Epon => 259,
            LinkType::IpmiHpm2 => 260,
            LinkType::Iso14443 => 264,
            LinkType::Rds => 265,
            LinkType::Sdlc => 268,
            LinkType::Loratap => 270,
            LinkType::NordicBle => 272,
            LinkType::Docsis31Xra31 => 273,
            LinkType::EthernetMpacket => 274,
            LinkType::DisplayportAux => 275,
            LinkType::Openvizsla => 278,
            LinkType::Ebhscr => 279,
            LinkType::VppDispatch => 280,
            LinkType::DsaTagBrcm => 281,
            LinkType::DsaTagBrcmPrepend => 282,
            LinkType::DsaTagDsa => 284,
            LinkType::DsaTagEdsa => 285,
            LinkType::Elee => 286,
            LinkType::Usb2_0 => 288,
            LinkType::AtscAlp => 289,
        }
    }

    /// The link type that `value` stands for, or `InvalidLinkType` carrying
    /// `value` when it is none of them.
    pub fn try_from_u16(value: u16) -> (r: Result<LinkType, InvalidLinkType>)
        ensures
            match link_type_of(value) {
                Some(t) => r == Ok::<LinkType, InvalidLinkType>(t),
                None => r == Err::<LinkType, InvalidLinkType>(InvalidLinkType(value as u32)),
            },
    {
        reveal(link_type_of);
        match value {
            0 => Ok(LinkType::Null),
            1 => Ok(LinkType::Ethernet),
            3 => Ok(LinkType::Ax25),
            6 => Ok(LinkType::Ieee802_5),
            7 => Ok(LinkType::ArcnetBsd),
            8 => Ok(LinkType::Slip),
            9 => Ok(LinkType::Ppp),
            10 => Ok(LinkType::Fddi),
            50 => Ok(LinkType::PppHdlc),
            51 => Ok(LinkType::PppEther),
            104 => Ok(LinkType::CHdlc),
            166 => Ok(LinkType::PppPppd),
            204 => Ok(LinkType::PppWithDir),
            205 => Ok(LinkType::CHdlcWithDir),
            206 => Ok(LinkType::FrelayWithDir),
            100 => Ok(LinkType::AtmRfc1483),
            101 => Ok(LinkType::Raw),
            107 => Ok(LinkType::Frelay),
            182 => Ok(LinkType::Mfr),
            105 => Ok(LinkType::Ieee802_11),
            119 => Ok(LinkType::Ieee802_11Prism),
            127 => Ok(LinkType::Ieee802_11Radiotap),
            163 => Ok(LinkType::Ieee802_11Avs),
            187 => Ok(LinkType::BluetoothHciH4),
            195 => Ok(LinkType::Ieee802_15_4Withfcs),
            201 => Ok(LinkType::BluetoothHciH4WithPhdr),
            215 => Ok(LinkType::Ieee802_15_4NonaskPhy),
            230 => Ok(LinkType::Ieee802_15_4Nofcs),
            251 => Ok(LinkType::BluetoothLeLl),
            254 => Ok(LinkType::BluetoothLinuxMonitor),
            255 => Ok(LinkType::BluetoothBredrBb),
            256 => Ok(LinkType::BluetoothLeLlWithPhdr),
            283 => Ok(LinkType::Ieee802_15_4Tap),
            108 => Ok(LinkType::Loop),
            113 => Ok(LinkType::LinuxSll),
            117 => Ok(LinkType::Pflog),
            129 => Ok(LinkType::ArcnetLinux),
            144 => Ok(LinkType::LinuxIrda),
            177 => Ok(LinkType::LinuxLapd),
            189 => Ok(LinkType::UsbLinux),
            220 => Ok(LinkType::UsbLinuxMmapped),
            226 => Ok(LinkType::Ipnet),
            227 => Ok(LinkType::CanSocketcan),
            239 => Ok(LinkType::Nflog),
            253 => Ok(LinkType::Netlink),
            258 => Ok(LinkType::Pktap),
            266 => Ok(LinkType::UsbDarwin),
            271 => Ok(LinkType::Vsock),
            276 => Ok(LinkType::LinuxSll2),
            139 => Ok(LinkType::Mtp2WithPhdr),
            140 => Ok(LinkType::Mtp2),
            141 => Ok(LinkType::Mtp3),
            142 => Ok(LinkType::Sccp),
            169 => Ok(LinkType::GprsLlc),
            170 => Ok(LinkType::GpfT),
            171 => Ok(LinkType::GpfF),
            209 => Ok(LinkType::IpmbLinux),
            250 => Ok(LinkType::RtacSerial),
            257 => Ok(LinkType::ProfibusDl),
            261 => Ok(LinkType::ZwaveR1R2),
            262 => Ok(LinkType::ZwaveR3),
            263 => Ok(LinkType::WattstopperDlm),
            287 => Ok(LinkType::ZWaveSerial),
            114 => Ok(LinkType::Ltalk),
            122 => Ok(LinkType::IpOverFc),
            123 => Ok(LinkType::Sunatm),
            138 => Ok(LinkType::AppleIpOverIeee1394),
            143 => Ok(LinkType::Docsis),
            165 => Ok(LinkType::BacnetMsTp),
            196 => Ok(LinkType::Sita),
            197 => Ok(LinkType::Erf),
            202 => Ok(LinkType::Ax25Kiss),
            203 => Ok(LinkType::Lapd),
            207 => Ok(LinkType::LapbWithDir),
            224 => Ok(LinkType::Fc2),
            225 => Ok(LinkType::Fc2WithFrameDelims),
            228 => Ok(LinkType::Ipv4),
            229 => Ok(LinkType::Ipv6),
            231 => Ok(LinkType::Dbus),
            235 => Ok(LinkType::DvbCi),
            236 => Ok(LinkType::Mux27010),
            237 => Ok(LinkType::Stanag5066DPdu),
            240 => Ok(LinkType::Netanalyzer),
            241 => Ok(LinkType::NetanalyzerTransparent),
            242 => Ok(LinkType::Ipoib),
            243 => Ok(LinkType::Mpeg2Ts),
            244 => Ok(LinkType::Ng40),
            245 => Ok(LinkType::NfcLlcp),
            247 => Ok(LinkType::Infiniband),
            248 => Ok(LinkType::Sctp),
            249 => Ok(LinkType::UsbPcap),
            192 => Ok(LinkType::Ppi),
            259 => Ok(LinkType::Epon),
            260 => Ok(LinkType::IpmiHpm2),
            264 => Ok(LinkType::Iso14443),
            265 => Ok(LinkType::Rds),
            268 => Ok(LinkType::Sdlc),
            270 => Ok(LinkType::Loratap),
            272 => Ok(LinkType::NordicBle),
            273 => Ok(LinkType::Docsis31Xra31),
            274 => Ok(LinkType::EthernetMpacket),
            275 => Ok(LinkType::DisplayportAux),
            278 => Ok(LinkType::Openvizsla),
            279 => Ok(LinkType::Ebhscr),
            280 => Ok(LinkType::VppDispatch),
            281 => Ok(LinkType::DsaTagBrcm),
            282 => Ok(LinkType::DsaTagBrcmPrepend),
            284 => Ok(LinkType::DsaTagDsa),
            285 => Ok(LinkType::DsaTagEdsa),
            286 => Ok(LinkType::Elee),
            288 => Ok(LinkType::Usb2_0),
            289 => Ok(LinkType::AtscAlp),
            _ => Err(InvalidLinkType(value as u32)),
        }
    }

    /// The link type of a 4-byte field. A value above `u16::MAX` is none of
    /// them; the error carries the whole value.
    pub fn try_from_u32(value: u32) -> (r: Result<LinkType, InvalidLinkType>)
        ensures
            value <= u16::MAX ==> match link_type_of(value as u16) {
                Some(t) => r == Ok::<LinkType, InvalidLinkType>(t),
                None => r == Err::<LinkType, InvalidLinkType>(InvalidLinkType(value)),
            },
            value > u16::MAX ==> r == Err::<LinkType, InvalidLinkType>(InvalidLinkType(value)),
    {
        if value > 65535 {
            return Err(InvalidLinkType(value));
        }
        LinkType::try_from_u16(value as u16)
    }
}

} // verus!
