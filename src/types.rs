//! Closed enumerations of the data model and their wire names.
use vstd::prelude::*;
use crate::text::text_eq;

verus! {

/// The kind of a paired device.
#[derive(Debug, Clone, Copy, PartialEq, Eq, Structural)]
pub enum DeviceType {
    Unknown,
    Headphone,
    Speaker,
    Car,
    Keyboard,
    Mouse,
    Gamepad,
    Watch,
    Phone,
    Smartphone,
    Desktop,
    Laptop,
    Tablet,
    Other,
    Display,
}

impl DeviceType {
    /// The upper-case name of the variant on the wire.
    pub open spec fn wire_name(self) -> Seq<char> {
        match self {
            DeviceType::Unknown => "UNKNOWN"@,
            DeviceType::Headphone => "HEADPHONE"@,
            DeviceType::Speaker => "SPEAKER"@,
            DeviceType::Car => "CAR"@,
            DeviceType::Keyboard => "KEYBOARD"@,
            DeviceType::Mouse => "MOUSE"@,
            DeviceType::Gamepad => "GAMEPAD"@,
            DeviceType::Watch => "WATCH"@,
            DeviceType::Phone => "PHONE"@,
            DeviceType::Smartphone => "SMARTPHONE"@,
            DeviceType::Desktop => "DESKTOP"@,
            DeviceType::Laptop => "LAPTOP"@,
            DeviceType::Tablet => "TABLET"@,
            DeviceType::Other => "OTHER"@,
            DeviceType::Display => "DISPLAY"@,
        }
    }

    pub open spec fn from_wire_spec(s: Seq<char>) -> Option<DeviceType> {
        if s == "UNKNOWN"@ {
            Some(DeviceType::Unknown)
        } else if s == "HEADPHONE"@ {
            Some(DeviceType::Headphone)
        } else if s == "SPEAKER"@ {
            Some(DeviceType::Speaker)
        } else if s == "CAR"@ {
            Some(DeviceType::Car)
        } else if s == "KEYBOARD"@ {
            Some(DeviceType::Keyboard)
        } else if s == "MOUSE"@ {
            Some(DeviceType::Mouse)
        } else if s == "GAMEPAD"@ {
            Some(DeviceType::Gamepad)
        } else if s == "WATCH"@ {
            Some(DeviceType::Watch)
        } else if s == "PHONE"@ {
            Some(DeviceType::Phone)
        } else if s == "SMARTPHONE"@ {
            Some(DeviceType::Smartphone)
        } else if s == "DESKTOP"@ {
            Some(DeviceType::Desktop)
        } else if s == "LAPTOP"@ {
            Some(DeviceType::Laptop)
        } else if s == "TABLET"@ {
            Some(DeviceType::Tablet)
        } else if s == "OTHER"@ {
            Some(DeviceType::Other)
        } else if s == "DISPLAY"@ {
            Some(DeviceType::Display)
        } else {
            None
        }
    }

    /// The wire name of the variant.
    pub fn as_wire(&self) -> (r: &'static str)
        ensures
            r@ == self.wire_name(),
    {
        match self {
            DeviceType::Unknown => "UNKNOWN",
            DeviceType::Headphone => "HEADPHONE",
            DeviceType::Speaker => "SPEAKER",
            DeviceType::Car => "CAR",
            DeviceType::Keyboard => "KEYBOARD",
            DeviceType::Mouse => "MOUSE",
            DeviceType::Gamepad => "GAMEPAD",
            DeviceType::Watch => "WATCH",
            DeviceType::Phone => "PHONE",
            DeviceType::Smartphone => "SMARTPHONE",
            DeviceType::Desktop => "DESKTOP",
            DeviceType::Laptop => "LAPTOP",
            DeviceType::Tablet => "TABLET",
            DeviceType::Other => "OTHER",
            DeviceType::Display => "DISPLAY",
        }
    }

    /// The wire name, as text.
    pub fn to_string(&self) -> (r: String)
        ensures
            r@ == self.wire_name(),
    {
        self.as_wire().to_owned()
    }

    /// Reads a variant from its wire name; `None` for any other text.
    pub fn from_wire(s: &str) -> (r: Option<DeviceType>)
        ensures
            r == Self::from_wire_spec(s@),
    {
        if text_eq(s, "UNKNOWN") {
            Some(DeviceType::Unknown)
        } else if text_eq(s, "HEADPHONE") {
            Some(DeviceType::Headphone)
        } else if text_eq(s, "SPEAKER") {
            Some(DeviceType::Speaker)
        } else if text_eq(s, "CAR") {
            Some(DeviceType::Car)
        } else if text_eq(s, "KEYBOARD") {
            Some(DeviceType::Keyboard)
        } else if text_eq(s, "MOUSE") {
            Some(DeviceType::Mouse)
        } else if text_eq(s, "GAMEPAD") {
            Some(DeviceType::Gamepad)
        } else if text_eq(s, "WATCH") {
            Some(DeviceType::Watch)
        } else if text_eq(s, "PHONE") {
            Some(DeviceType::Phone)
        } else if text_eq(s, "SMARTPHONE") {
            Some(DeviceType::Smartphone)
        } else if text_eq(s, "DESKTOP") {
            Some(DeviceType::Desktop)
        } else if text_eq(s, "LAPTOP") {
            Some(DeviceType::Laptop)
        } else if text_eq(s, "TABLET") {
            Some(DeviceType::Tablet)
        } else if text_eq(s, "OTHER") {
            Some(DeviceType::Other)
        } else if text_eq(s, "DISPLAY") {
            Some(DeviceType::Display)
        } else {
            None
        }
    }

    /// Every variant is read back from its own wire name.
    pub proof fn lemma_wire_round_trip(self)
        ensures
            Self::from_wire_spec(self.wire_name()) == Some(self),
    {
        reveal_strlit("UNKNOWN");
        reveal_strlit("HEADPHONE");
        reveal_strlit("SPEAKER");
        reveal_strlit("CAR");
        reveal_strlit("KEYBOARD");
        reveal_strlit("MOUSE");
        reveal_strlit("GAMEPAD");
        reveal_strlit("WATCH");
        reveal_strlit("PHONE");
        reveal_strlit("SMARTPHONE");
        reveal_strlit("DESKTOP");
        reveal_strlit("LAPTOP");
        reveal_strlit("TABLET");
        reveal_strlit("OTHER");
        reveal_strlit("DISPLAY");
        assert("UNKNOWN"@.len() == 7 && "UNKNOWN"@[0] == 'U' && "UNKNOWN"@[1] == 'N' && "UNKNOWN"@[2] == 'K' && "UNKNOWN"@[3] == 'N' && "UNKNOWN"@[4] == 'O' && "UNKNOWN"@[5] == 'W' && "UNKNOWN"@[6] == 'N');
        assert("HEADPHONE"@.len() == 9 && "HEADPHONE"@[0] == 'H' && "HEADPHONE"@[1] == 'E' && "HEADPHONE"@[2] == 'A' && "HEADPHONE"@[3] == 'D' && "HEADPHONE"@[4] == 'P' && "HEADPHONE"@[5] == 'H' && "HEADPHONE"@[6] == 'O' && "HEADPHONE"@[7] == 'N' && "HEADPHONE"@[8] == 'E');
        assert("SPEAKER"@.len() == 7 && "SPEAKER"@[0] == 'S' && "SPEAKER"@[1] == 'P' && "SPEAKER"@[2] == 'E' && "SPEAKER"@[3] == 'A' && "SPEAKER"@[4] == 'K' && "SPEAKER"@[5] == 'E' && "SPEAKER"@[6] == 'R');
        assert("CAR"@.len() == 3 && "CAR"@[0] == 'C' && "CAR"@[1] == 'A' && "CAR"@[2] == 'R');
        assert("KEYBOARD"@.len() == 8 && "KEYBOARD"@[0] == 'K' && "KEYBOARD"@[1] == 'E' && "KEYBOARD"@[2] == 'Y' && "KEYBOARD"@[3] == 'B' && "KEYBOARD"@[4] == 'O' && "KEYBOARD"@[5] == 'A' && "KEYBOARD"@[6] == 'R' && "KEYBOARD"@[7] == 'D');
        assert("MOUSE"@.len() == 5 && "MOUSE"@[0] == 'M' && "MOUSE"@[1] == 'O' && "MOUSE"@[2] == 'U' && "MOUSE"@[3] == 'S' && "MOUSE"@[4] == 'E');
        assert("GAMEPAD"@.len() == 7 && "GAMEPAD"@[0] == 'G' && "GAMEPAD"@[1] == 'A' && "GAMEPAD"@[2] == 'M' && "GAMEPAD"@[3] == 'E' && "GAMEPAD"@[4] == 'P' && "GAMEPAD"@[5] == 'A' && "GAMEPAD"@[6] == 'D');
        assert("WATCH"@.len() == 5 && "WATCH"@[0] == 'W' && "WATCH"@[1] == 'A' && "WATCH"@[2] == 'T' && "WATCH"@[3] == 'C' && "WATCH"@[4] == 'H');
        assert("PHONE"@.len() == 5 && "PHONE"@[0] == 'P' && "PHONE"@[1] == 'H' && "PHONE"@[2] == 'O' && "PHONE"@[3] == 'N' && "PHONE"@[4] == 'E');
        assert("SMARTPHONE"@.len() == 10 && "SMARTPHONE"@[0] == 'S' && "SMARTPHONE"@[1] == 'M' && "SMARTPHONE"@[2] == 'A' && "SMARTPHONE"@[3] == 'R' && "SMARTPHONE"@[4] == 'T' && "SMARTPHONE"@[5] == 'P' && "SMARTPHONE"@[6] == 'H' && "SMARTPHONE"@[7] == 'O' && "SMARTPHONE"@[8] == 'N' && "SMARTPHONE"@[9] == 'E');
        assert("DESKTOP"@.len() == 7 && "DESKTOP"@[0] == 'D' && "DESKTOP"@[1] == 'E' && "DESKTOP"@[2] == 'S' && "DESKTOP"@[3] == 'K' && "DESKTOP"@[4] == 'T' && "DESKTOP"@[5] == 'O' && "DESKTOP"@[6] == 'P');
        assert("LAPTOP"@.len() == 6 && "LAPTOP"@[0] == 'L' && "LAPTOP"@[1] == 'A' && "LAPTOP"@[2] == 'P' && "LAPTOP"@[3] == 'T' && "LAPTOP"@[4] == 'O' && "LAPTOP"@[5] == 'P');
        assert("TABLET"@.len() == 6 && "TABLET"@[0] == 'T' && "TABLET"@[1] == 'A' && "TABLET"@[2] == 'B' && "TABLET"@[3] == 'L' && "TABLET"@[4] == 'E' && "TABLET"@[5] == 'T');
        assert("OTHER"@.len() == 5 && "OTHER"@[0] == 'O' && "OTHER"@[1] == 'T' && "OTHER"@[2] == 'H' && "OTHER"@[3] == 'E' && "OTHER"@[4] == 'R');
        assert("DISPLAY"@.len() == 7 && "DISPLAY"@[0] == 'D' && "DISPLAY"@[1] == 'I' && "DISPLAY"@[2] == 'S' && "DISPLAY"@[3] == 'P' && "DISPLAY"@[4] == 'L' && "DISPLAY"@[5] == 'A' && "DISPLAY"@[6] == 'Y');
    }

    /// A name is read as a variant only if it is that variant's wire name.
    pub proof fn lemma_from_wire_inverse(s: Seq<char>)
        ensures
            Self::from_wire_spec(s) matches Some(v) ==> v.wire_name() == s,
    {
    }
}

/// Which camera of a device produced a capture.
#[derive(Debug, Clone, Copy, PartialEq, Eq, Structural)]
pub enum CameraType {
    Unknown,
    Front,
    BackMain,
    BackWide,
    BackTelephoto,
}

impl CameraType {
    /// The upper-case name of the variant on the wire.
    pub open spec fn wire_name(self) -> Seq<char> {
        match self {
            CameraType::Unknown => "UNKNOWN"@,
            CameraType::Front => "FRONT"@,
            CameraType::BackMain => "BACK_MAIN"@,
            CameraType::BackWide => "BACK_WIDE"@,
            CameraType::BackTelephoto => "BACK_TELEPHOTO"@,
        }
    }

    pub open spec fn from_wire_spec(s: Seq<char>) -> Option<CameraType> {
        if s == "UNKNOWN"@ {
            Some(CameraType::Unknown)
        } else if s == "FRONT"@ {
            Some(CameraType::Front)
        } else if s == "BACK_MAIN"@ {
            Some(CameraType::BackMain)
        } else if s == "BACK_WIDE"@ {
            Some(CameraType::BackWide)
        } else if s == "BACK_TELEPHOTO"@ {
            Some(CameraType::BackTelephoto)
        } else {
            None
        }
    }

    /// The wire name of the variant.
    pub fn as_wire(&self) -> (r: &'static str)
        ensures
            r@ == self.wire_name(),
    {
        match self {
            CameraType::Unknown => "UNKNOWN",
            CameraType::Front => "FRONT",
            CameraType::BackMain => "BACK_MAIN",
            CameraType::BackWide => "BACK_WIDE",
            CameraType::BackTelephoto => "BACK_TELEPHOTO",
        }
    }

    /// Reads a variant from its wire name; `None` for any other text.
    pub fn from_wire(s: &str) -> (r: Option<CameraType>)
        ensures
            r == Self::from_wire_spec(s@),
    {
        if text_eq(s, "UNKNOWN") {
            Some(CameraType::Unknown)
        } else if text_eq(s, "FRONT") {
            Some(CameraType::Front)
        } else if text_eq(s, "BACK_MAIN") {
            Some(CameraType::BackMain)
        } else if text_eq(s, "BACK_WIDE") {
            Some(CameraType::BackWide)
        } else if text_eq(s, "BACK_TELEPHOTO") {
            Some(CameraType::BackTelephoto)
        } else {
            None
        }
    }

    /// Every variant is read back from its own wire name.
    pub proof fn lemma_wire_round_trip(self)
        ensures
            Self::from_wire_spec(self.wire_name()) == Some(self),
    {
        reveal_strlit("UNKNOWN");
        reveal_strlit("FRONT");
        reveal_strlit("BACK_MAIN");
        reveal_strlit("BACK_WIDE");
        reveal_strlit("BACK_TELEPHOTO");
        assert("UNKNOWN"@.len() == 7 && "UNKNOWN"@[0] == 'U' && "UNKNOWN"@[1] == 'N' && "UNKNOWN"@[2] == 'K' && "UNKNOWN"@[3] == 'N' && "UNKNOWN"@[4] == 'O' && "UNKNOWN"@[5] == 'W' && "UNKNOWN"@[6] == 'N');
        assert("FRONT"@.len() == 5 && "FRONT"@[0] == 'F' && "FRONT"@[1] == 'R' && "FRONT"@[2] == 'O' && "FRONT"@[3] == 'N' && "FRONT"@[4] == 'T');
        assert("BACK_MAIN"@.len() == 9 && "BACK_MAIN"@[0] == 'B' && "BACK_MAIN"@[1] == 'A' && "BACK_MAIN"@[2] == 'C' && "BACK_MAIN"@[3] == 'K' && "BACK_MAIN"@[4] == '_' && "BACK_MAIN"@[5] == 'M' && "BACK_MAIN"@[6] == 'A' && "BACK_MAIN"@[7] == 'I' && "BACK_MAIN"@[8] == 'N');
        assert("BACK_WIDE"@.len() == 9 && "BACK_WIDE"@[0] == 'B' && "BACK_WIDE"@[1] == 'A' && "BACK_WIDE"@[2] == 'C' && "BACK_WIDE"@[3] == 'K' && "BACK_WIDE"@[4] == '_' && "BACK_WIDE"@[5] == 'W' && "BACK_WIDE"@[6] == 'I' && "BACK_WIDE"@[7] == 'D' && "BACK_WIDE"@[8] == 'E');
        assert("BACK_TELEPHOTO"@.len() == 14 && "BACK_TELEPHOTO"@[0] == 'B' && "BACK_TELEPHOTO"@[1] == 'A' && "BACK_TELEPHOTO"@[2] == 'C' && "BACK_TELEPHOTO"@[3] == 'K' && "BACK_TELEPHOTO"@[4] == '_' && "BACK_TELEPHOTO"@[5] == 'T' && "BACK_TELEPHOTO"@[6] == 'E' && "BACK_TELEPHOTO"@[7] == 'L' && "BACK_TELEPHOTO"@[8] == 'E' && "BACK_TELEPHOTO"@[9] == 'P' && "BACK_TELEPHOTO"@[10] == 'H' && "BACK_TELEPHOTO"@[11] == 'O' && "BACK_TELEPHOTO"@[12] == 'T' && "BACK_TELEPHOTO"@[13] == 'O');
    }

    /// A name is read as a variant only if it is that variant's wire name.
    pub proof fn lemma_from_wire_inverse(s: Seq<char>)
        ensures
            Self::from_wire_spec(s) matches Some(v) ==> v.wire_name() == s,
    {
    }
}

/// The link a device is connected through.
#[derive(Debug, Clone, Copy, PartialEq, Eq, Structural)]
pub enum ConnectionType {
    Unknown,
    Disconnected,
    Wifi,
    Cellular2g,
    Cellular3g,
    Cellular4g,
    Cellular5g,
    Ethernet,
    Vpn,
}

impl ConnectionType {
    /// The upper-case name of the variant on the wire.
    pub open spec fn wire_name(self) -> Seq<char> {
        match self {
            ConnectionType::Unknown => "UNKNOWN"@,
            ConnectionType::Disconnected => "NONE"@,
            ConnectionType::Wifi => "WIFI"@,
            ConnectionType::Cellular2g => "CELLULAR2G"@,
            ConnectionType::Cellular3g => "CELLULAR3G"@,
            ConnectionType::Cellular4g => "CELLULAR4G"@,
            ConnectionType::Cellular5g => "CELLULAR5G"@,
            ConnectionType::Ethernet => "ETHERNET"@,
            ConnectionType::Vpn => "VPN"@,
        }
    }

    pub open spec fn from_wire_spec(s: Seq<char>) -> Option<ConnectionType> {
        if s == "UNKNOWN"@ {
            Some(ConnectionType::Unknown)
        } else if s == "NONE"@ {
            Some(ConnectionType::Disconnected)
        } else if s == "WIFI"@ {
            Some(ConnectionType::Wifi)
        } else if s == "CELLULAR2G"@ {
            Some(ConnectionType::Cellular2g)
        } else if s == "CELLULAR3G"@ {
            Some(ConnectionType::Cellular3g)
        } else if s == "CELLULAR4G"@ {
            Some(ConnectionType::Cellular4g)
        } else if s == "CELLULAR5G"@ {
            Some(ConnectionType::Cellular5g)
        } else if s == "ETHERNET"@ {
            Some(ConnectionType::Ethernet)
        } else if s == "VPN"@ {
            Some(ConnectionType::Vpn)
        } else {
            None
        }
    }

    /// The wire name of the variant.
    pub fn as_wire(&self) -> (r: &'static str)
        ensures
            r@ == self.wire_name(),
    {
        match self {
            ConnectionType::Unknown => "UNKNOWN",
            ConnectionType::Disconnected => "NONE",
            ConnectionType::Wifi => "WIFI",
            ConnectionType::Cellular2g => "CELLULAR2G",
            ConnectionType::Cellular3g => "CELLULAR3G",
            ConnectionType::Cellular4g => "CELLULAR4G",
            ConnectionType::Cellular5g => "CELLULAR5G",
            ConnectionType::Ethernet => "ETHERNET",
            ConnectionType::Vpn => "VPN",
        }
    }

    /// The variant's name as written in the source, as shown to people.
    pub open spec fn display_name(self) -> Seq<char> {
        match self {
            ConnectionType::Unknown => "Unknown"@,
            ConnectionType::Disconnected => "None"@,
            ConnectionType::Wifi => "Wifi"@,
            ConnectionType::Cellular2g => "Cellular2g"@,
            ConnectionType::Cellular3g => "Cellular3g"@,
            ConnectionType::Cellular4g => "Cellular4g"@,
            ConnectionType::Cellular5g => "Cellular5g"@,
            ConnectionType::Ethernet => "Ethernet"@,
            ConnectionType::Vpn => "Vpn"@,
        }
    }

    /// The display name, as text.
    pub fn to_string(&self) -> (r: String)
        ensures
            r@ == self.display_name(),
    {
        let s: &str = match self {
            ConnectionType::Unknown => "Unknown",
            ConnectionType::Disconnected => "None",
            ConnectionType::Wifi => "Wifi",
            ConnectionType::Cellular2g => "Cellular2g",
            ConnectionType::Cellular3g => "Cellular3g",
            ConnectionType::Cellular4g => "Cellular4g",
            ConnectionType::Cellular5g => "Cellular5g",
            ConnectionType::Ethernet => "Ethernet",
            ConnectionType::Vpn => "Vpn",
        };
        s.to_owned()
    }

    /// Reads a variant from its wire name; `None` for any other text.
    pub fn from_wire(s: &str) -> (r: Option<ConnectionType>)
        ensures
            r == Self::from_wire_spec(s@),
    {
        if text_eq(s, "UNKNOWN") {
            Some(ConnectionType::Unknown)
        } else if text_eq(s, "NONE") {
            Some(ConnectionType::Disconnected)
        } else if text_eq(s, "WIFI") {
            Some(ConnectionType::Wifi)
        } else if text_eq(s, "CELLULAR2G") {
            Some(ConnectionType::Cellular2g)
        } else if text_eq(s, "CELLULAR3G") {
            Some(ConnectionType::Cellular3g)
        } else if text_eq(s, "CELLULAR4G") {
            Some(ConnectionType::Cellular4g)
        } else if text_eq(s, "CELLULAR5G") {
            Some(ConnectionType::Cellular5g)
        } else if text_eq(s, "ETHERNET") {
            Some(ConnectionType::Ethernet)
        } else if text_eq(s, "VPN") {
            Some(ConnectionType::Vpn)
        } else {
            None
        }
    }

    /// Every variant is read back from its own wire name.
    pub proof fn lemma_wire_round_trip(self)
        ensures
            Self::from_wire_spec(self.wire_name()) == Some(self),
    {
        reveal_strlit("UNKNOWN");
        reveal_strlit("NONE");
        reveal_strlit("WIFI");
        reveal_strlit("CELLULAR2G");
        reveal_strlit("CELLULAR3G");
        reveal_strlit("CELLULAR4G");
        reveal_strlit("CELLULAR5G");
        reveal_strlit("ETHERNET");
        reveal_strlit("VPN");
        assert("UNKNOWN"@.len() == 7 && "UNKNOWN"@[0] == 'U' && "UNKNOWN"@[1] == 'N' && "UNKNOWN"@[2] == 'K' && "UNKNOWN"@[3] == 'N' && "UNKNOWN"@[4] == 'O' && "UNKNOWN"@[5] == 'W' && "UNKNOWN"@[6] == 'N');
        assert("NONE"@.len() == 4 && "NONE"@[0] == 'N' && "NONE"@[1] == 'O' && "NONE"@[2] == 'N' && "NONE"@[3] == 'E');
        assert("WIFI"@.len() == 4 && "WIFI"@[0] == 'W' && "WIFI"@[1] == 'I' && "WIFI"@[2] == 'F' && "WIFI"@[3] == 'I');
        assert("CELLULAR2G"@.len() == 10 && "CELLULAR2G"@[0] == 'C' && "CELLULAR2G"@[1] == 'E' && "CELLULAR2G"@[2] == 'L' && "CELLULAR2G"@[3] == 'L' && "CELLULAR2G"@[4] == 'U' && "CELLULAR2G"@[5] == 'L' && "CELLULAR2G"@[6] == 'A' && "CELLULAR2G"@[7] == 'R' && "CELLULAR2G"@[8] == '2' && "CELLULAR2G"@[9] == 'G');
        assert("CELLULAR3G"@.len() == 10 && "CELLULAR3G"@[0] == 'C' && "CELLULAR3G"@[1] == 'E' && "CELLULAR3G"@[2] == 'L' && "CELLULAR3G"@[3] == 'L' && "CELLULAR3G"@[4] == 'U' && "CELLULAR3G"@[5] == 'L' && "CELLULAR3G"@[6] == 'A' && "CELLULAR3G"@[7] == 'R' && "CELLULAR3G"@[8] == '3' && "CELLULAR3G"@[9] == 'G');
        assert("CELLULAR4G"@.len() == 10 && "CELLULAR4G"@[0] == 'C' && "CELLULAR4G"@[1] == 'E' && "CELLULAR4G"@[2] == 'L' && "CELLULAR4G"@[3] == 'L' && "CELLULAR4G"@[4] == 'U' && "CELLULAR4G"@[5] == 'L' && "CELLULAR4G"@[6] == 'A' && "CELLULAR4G"@[7] == 'R' && "CELLULAR4G"@[8] == '4' && "CELLULAR4G"@[9] == 'G');
        assert("CELLULAR5G"@.len() == 10 && "CELLULAR5G"@[0] == 'C' && "CELLULAR5G"@[1] == 'E' && "CELLULAR5G"@[2] == 'L' && "CELLULAR5G"@[3] == 'L' && "CELLULAR5G"@[4] == 'U' && "CELLULAR5G"@[5] == 'L' && "CELLULAR5G"@[6] == 'A' && "CELLULAR5G"@[7] == 'R' && "CELLULAR5G"@[8] == '5' && "CELLULAR5G"@[9] == 'G');
        assert("ETHERNET"@.len() == 8 && "ETHERNET"@[0] == 'E' && "ETHERNET"@[1] == 'T' && "ETHERNET"@[2] == 'H' && "ETHERNET"@[3] == 'E' && "ETHERNET"@[4] == 'R' && "ETHERNET"@[5] == 'N' && "ETHERNET"@[6] == 'E' && "ETHERNET"@[7] == 'T');
        assert("VPN"@.len() == 3 && "VPN"@[0] == 'V' && "VPN"@[1] == 'P' && "VPN"@[2] == 'N');
    }

    /// A name is read as a variant only if it is that variant's wire name.
    pub proof fn lemma_from_wire_inverse(s: Seq<char>)
        ensures
            Self::from_wire_spec(s) matches Some(v) ==> v.wire_name() == s,
    {
    }
}

/// The kind of a recognised entity.
#[derive(Debug, Clone, Copy, PartialEq, Eq, Structural)]
pub enum EntityType {
    Face,
    Object,
    Pose,
    Audio,
}

impl EntityType {
    /// The upper-case name of the variant on the wire.
    pub open spec fn wire_name(self) -> Seq<char> {
        match self {
            EntityType::Face => "FACE"@,
            EntityType::Object => "OBJECT"@,
            EntityType::Pose => "POSE"@,
            EntityType::Audio => "AUDIO"@,
        }
    }

    pub open spec fn from_wire_spec(s: Seq<char>) -> Option<EntityType> {
        if s == "FACE"@ {
            Some(EntityType::Face)
        } else if s == "OBJECT"@ {
            Some(EntityType::Object)
        } else if s == "POSE"@ {
            Some(EntityType::Pose)
        } else if s == "AUDIO"@ {
            Some(EntityType::Audio)
        } else {
            None
        }
    }

    /// The wire name of the variant.
    pub fn as_wire(&self) -> (r: &'static str)
        ensures
            r@ == self.wire_name(),
    {
        match self {
            EntityType::Face => "FACE",
            EntityType::Object => "OBJECT",
            EntityType::Pose => "POSE",
            EntityType::Audio => "AUDIO",
        }
    }

    /// Reads a variant from its wire name; `None` for any other text.
    pub fn from_wire(s: &str) -> (r: Option<EntityType>)
        ensures
            r == Self::from_wire_spec(s@),
    {
        if text_eq(s, "FACE") {
            Some(EntityType::Face)
        } else if text_eq(s, "OBJECT") {
            Some(EntityType::Object)
        } else if text_eq(s, "POSE") {
            Some(EntityType::Pose)
        } else if text_eq(s, "AUDIO") {
            Some(EntityType::Audio)
        } else {
            None
        }
    }

    /// Every variant is read back from its own wire name.
    pub proof fn lemma_wire_round_trip(self)
        ensures
            Self::from_wire_spec(self.wire_name()) == Some(self),
    {
        reveal_strlit("FACE");
        reveal_strlit("OBJECT");
        reveal_strlit("POSE");
        reveal_strlit("AUDIO");
        assert("FACE"@.len() == 4 && "FACE"@[0] == 'F' && "FACE"@[1] == 'A' && "FACE"@[2] == 'C' && "FACE"@[3] == 'E');
        assert("OBJECT"@.len() == 6 && "OBJECT"@[0] == 'O' && "OBJECT"@[1] == 'B' && "OBJECT"@[2] == 'J' && "OBJECT"@[3] == 'E' && "OBJECT"@[4] == 'C' && "OBJECT"@[5] == 'T');
        assert("POSE"@.len() == 4 && "POSE"@[0] == 'P' && "POSE"@[1] == 'O' && "POSE"@[2] == 'S' && "POSE"@[3] == 'E');
        assert("AUDIO"@.len() == 5 && "AUDIO"@[0] == 'A' && "AUDIO"@[1] == 'U' && "AUDIO"@[2] == 'D' && "AUDIO"@[3] == 'I' && "AUDIO"@[4] == 'O');
    }

    /// A name is read as a variant only if it is that variant's wire name.
    pub proof fn lemma_from_wire_inverse(s: Seq<char>)
        ensures
            Self::from_wire_spec(s) matches Some(v) ==> v.wire_name() == s,
    {
    }
}

/// Priority of a note; `Medium` when unspecified.
#[derive(Debug, Clone, Copy, PartialEq, Eq, Structural)]
pub enum NotePriority {
    Low,
    Medium,
    High,
    Critical,
}

impl NotePriority {
    /// The upper-case name of the variant on the wire.
    pub open spec fn wire_name(self) -> Seq<char> {
        match self {
            NotePriority::Low => "LOW"@,
            NotePriority::Medium => "MEDIUM"@,
            NotePriority::High => "HIGH"@,
            NotePriority::Critical => "CRITICAL"@,
        }
    }

    pub open spec fn from_wire_spec(s: Seq<char>) -> Option<NotePriority> {
        if s == "LOW"@ {
            Some(NotePriority::Low)
        } else if s == "MEDIUM"@ {
            Some(NotePriority::Medium)
        } else if s == "HIGH"@ {
            Some(NotePriority::High)
        } else if s == "CRITICAL"@ {
            Some(NotePriority::Critical)
        } else {
            None
        }
    }

    /// The wire name of the variant.
    pub fn as_wire(&self) -> (r: &'static str)
        ensures
            r@ == self.wire_name(),
    {
        match self {
            NotePriority::Low => "LOW",
            NotePriority::Medium => "MEDIUM",
            NotePriority::High => "HIGH",
            NotePriority::Critical => "CRITICAL",
        }
    }

    /// Reads a variant from its wire name; `None` for any other text.
    pub fn from_wire(s: &str) -> (r: Option<NotePriority>)
        ensures
            r == Self::from_wire_spec(s@),
    {
        if text_eq(s, "LOW") {
            Some(NotePriority::Low)
        } else if text_eq(s, "MEDIUM") {
            Some(NotePriority::Medium)
        } else if text_eq(s, "HIGH") {
            Some(NotePriority::High)
        } else if text_eq(s, "CRITICAL") {
            Some(NotePriority::Critical)
        } else {
            None
        }
    }

    /// Every variant is read back from its own wire name.
    pub proof fn lemma_wire_round_trip(self)
        ensures
            Self::from_wire_spec(self.wire_name()) == Some(self),
    {
        reveal_strlit("LOW");
        reveal_strlit("MEDIUM");
        reveal_strlit("HIGH");
        reveal_strlit("CRITICAL");
        assert("LOW"@.len() == 3 && "LOW"@[0] == 'L' && "LOW"@[1] == 'O' && "LOW"@[2] == 'W');
        assert("MEDIUM"@.len() == 6 && "MEDIUM"@[0] == 'M' && "MEDIUM"@[1] == 'E' && "MEDIUM"@[2] == 'D' && "MEDIUM"@[3] == 'I' && "MEDIUM"@[4] == 'U' && "MEDIUM"@[5] == 'M');
        assert("HIGH"@.len() == 4 && "HIGH"@[0] == 'H' && "HIGH"@[1] == 'I' && "HIGH"@[2] == 'G' && "HIGH"@[3] == 'H');
        assert("CRITICAL"@.len() == 8 && "CRITICAL"@[0] == 'C' && "CRITICAL"@[1] == 'R' && "CRITICAL"@[2] == 'I' && "CRITICAL"@[3] == 'T' && "CRITICAL"@[4] == 'I' && "CRITICAL"@[5] == 'C' && "CRITICAL"@[6] == 'A' && "CRITICAL"@[7] == 'L');
    }

    /// A name is read as a variant only if it is that variant's wire name.
    pub proof fn lemma_from_wire_inverse(s: Seq<char>)
        ensures
            Self::from_wire_spec(s) matches Some(v) ==> v.wire_name() == s,
    {
    }
}

/// Synchronisation tier of a table, from most to least urgent.
#[derive(Debug, Clone, Copy, PartialEq, Eq, Structural)]
pub enum SyncPriority {
    Critical,
    High,
    Medium,
    Low,
    Background,
}

impl SyncPriority {
    /// The upper-case name of the variant on the wire.
    pub open spec fn wire_name(self) -> Seq<char> {
        match self {
            SyncPriority::Critical => "CRITICAL"@,
            SyncPriority::High => "HIGH"@,
            SyncPriority::Medium => "MEDIUM"@,
            SyncPriority::Low => "LOW"@,
            SyncPriority::Background => "BACKGROUND"@,
        }
    }

    pub open spec fn from_wire_spec(s: Seq<char>) -> Option<SyncPriority> {
        if s == "CRITICAL"@ {
            Some(SyncPriority::Critical)
        } else if s == "HIGH"@ {
            Some(SyncPriority::High)
        } else if s == "MEDIUM"@ {
            Some(SyncPriority::Medium)
        } else if s == "LOW"@ {
            Some(SyncPriority::Low)
        } else if s == "BACKGROUND"@ {
            Some(SyncPriority::Background)
        } else {
            None
        }
    }

    /// The wire name of the variant.
    pub fn as_wire(&self) -> (r: &'static str)
        ensures
            r@ == self.wire_name(),
    {
        match self {
            SyncPriority::Critical => "CRITICAL",
            SyncPriority::High => "HIGH",
            SyncPriority::Medium => "MEDIUM",
            SyncPriority::Low => "LOW",
            SyncPriority::Background => "BACKGROUND",
        }
    }

    /// Reads a variant from its wire name; `None` for any other text.
    pub fn from_wire(s: &str) -> (r: Option<SyncPriority>)
        ensures
            r == Self::from_wire_spec(s@),
    {
        if text_eq(s, "CRITICAL") {
            Some(SyncPriority::Critical)
        } else if text_eq(s, "HIGH") {
            Some(SyncPriority::High)
        } else if text_eq(s, "MEDIUM") {
            Some(SyncPriority::Medium)
        } else if text_eq(s, "LOW") {
            Some(SyncPriority::Low)
        } else if text_eq(s, "BACKGROUND") {
            Some(SyncPriority::Background)
        } else {
            None
        }
    }

    /// Every variant is read back from its own wire name.
    pub proof fn lemma_wire_round_trip(self)
        ensures
            Self::from_wire_spec(self.wire_name()) == Some(self),
    {
        reveal_strlit("CRITICAL");
        reveal_strlit("HIGH");
        reveal_strlit("MEDIUM");
        reveal_strlit("LOW");
        reveal_strlit("BACKGROUND");
        assert("CRITICAL"@.len() == 8 && "CRITICAL"@[0] == 'C' && "CRITICAL"@[1] == 'R' && "CRITICAL"@[2] == 'I' && "CRITICAL"@[3] == 'T' && "CRITICAL"@[4] == 'I' && "CRITICAL"@[5] == 'C' && "CRITICAL"@[6] == 'A' && "CRITICAL"@[7] == 'L');
        assert("HIGH"@.len() == 4 && "HIGH"@[0] == 'H' && "HIGH"@[1] == 'I' && "HIGH"@[2] == 'G' && "HIGH"@[3] == 'H');
        assert("MEDIUM"@.len() == 6 && "MEDIUM"@[0] == 'M' && "MEDIUM"@[1] == 'E' && "MEDIUM"@[2] == 'D' && "MEDIUM"@[3] == 'I' && "MEDIUM"@[4] == 'U' && "MEDIUM"@[5] == 'M');
        assert("LOW"@.len() == 3 && "LOW"@[0] == 'L' && "LOW"@[1] == 'O' && "LOW"@[2] == 'W');
        assert("BACKGROUND"@.len() == 10 && "BACKGROUND"@[0] == 'B' && "BACKGROUND"@[1] == 'A' && "BACKGROUND"@[2] == 'C' && "BACKGROUND"@[3] == 'K' && "BACKGROUND"@[4] == 'G' && "BACKGROUND"@[5] == 'R' && "BACKGROUND"@[6] == 'O' && "BACKGROUND"@[7] == 'U' && "BACKGROUND"@[8] == 'N' && "BACKGROUND"@[9] == 'D');
    }

    /// A name is read as a variant only if it is that variant's wire name.
    pub proof fn lemma_from_wire_inverse(s: Seq<char>)
        ensures
            Self::from_wire_spec(s) matches Some(v) ==> v.wire_name() == s,
    {
    }
}

/// Compression applied to a table's stored payloads; `None` when unspecified.
#[derive(Debug, Clone, Copy, PartialEq, Eq, Structural)]
pub enum CompressionAlgorithm {
    Uncompressed,
    Lz4,
    Zstd,
    Gzip,
}

impl CompressionAlgorithm {
    /// The upper-case name of the variant on the wire.
    pub open spec fn wire_name(self) -> Seq<char> {
        match self {
            CompressionAlgorithm::Uncompressed => "NONE"@,
            CompressionAlgorithm::Lz4 => "LZ4"@,
            CompressionAlgorithm::Zstd => "ZSTD"@,
            CompressionAlgorithm::Gzip => "GZIP"@,
        }
    }

    pub open spec fn from_wire_spec(s: Seq<char>) -> Option<CompressionAlgorithm> {
        if s == "NONE"@ {
            Some(CompressionAlgorithm::Uncompressed)
        } else if s == "LZ4"@ {
            Some(CompressionAlgorithm::Lz4)
        } else if s == "ZSTD"@ {
            Some(CompressionAlgorithm::Zstd)
        } else if s == "GZIP"@ {
            Some(CompressionAlgorithm::Gzip)
        } else {
            None
        }
    }

    /// The wire name of the variant.
    pub fn as_wire(&self) -> (r: &'static str)
        ensures
            r@ == self.wire_name(),
    {
        match self {
            CompressionAlgorithm::Uncompressed => "NONE",
            CompressionAlgorithm::Lz4 => "LZ4",
            CompressionAlgorithm::Zstd => "ZSTD",
            CompressionAlgorithm::Gzip => "GZIP",
        }
    }

    /// Reads a variant from its wire name; `None` for any other text.
    pub fn from_wire(s: &str) -> (r: Option<CompressionAlgorithm>)
        ensures
            r == Self::from_wire_spec(s@),
    {
        if text_eq(s, "NONE") {
            Some(CompressionAlgorithm::Uncompressed)
        } else if text_eq(s, "LZ4") {
            Some(CompressionAlgorithm::Lz4)
        } else if text_eq(s, "ZSTD") {
            Some(CompressionAlgorithm::Zstd)
        } else if text_eq(s, "GZIP") {
            Some(CompressionAlgorithm::Gzip)
        } else {
            None
        }
    }

    /// Every variant is read back from its own wire name.
    pub proof fn lemma_wire_round_trip(self)
        ensures
            Self::from_wire_spec(self.wire_name()) == Some(self),
    {
        reveal_strlit("NONE");
        reveal_strlit("LZ4");
        reveal_strlit("ZSTD");
        reveal_strlit("GZIP");
        assert("NONE"@.len() == 4 && "NONE"@[0] == 'N' && "NONE"@[1] == 'O' && "NONE"@[2] == 'N' && "NONE"@[3] == 'E');
        assert("LZ4"@.len() == 3 && "LZ4"@[0] == 'L' && "LZ4"@[1] == 'Z' && "LZ4"@[2] == '4');
        assert("ZSTD"@.len() == 4 && "ZSTD"@[0] == 'Z' && "ZSTD"@[1] == 'S' && "ZSTD"@[2] == 'T' && "ZSTD"@[3] == 'D');
        assert("GZIP"@.len() == 4 && "GZIP"@[0] == 'G' && "GZIP"@[1] == 'Z' && "GZIP"@[2] == 'I' && "GZIP"@[3] == 'P');
    }

    /// A name is read as a variant only if it is that variant's wire name.
    pub proof fn lemma_from_wire_inverse(s: Seq<char>)
        ensures
            Self::from_wire_spec(s) matches Some(v) ==> v.wire_name() == s,
    {
    }
}

} // verus!
