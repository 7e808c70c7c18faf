//! The package kinds of the lobby protocol and their one-byte codes.
use vstd::prelude::*;

verus! {

/// What changed in a lobby.
#[derive(Debug, Clone, Copy, PartialEq, Eq, Structural)]
pub enum LobbyUpdate {
    Connect,
    Disconnect,
    ConnectionInterrupt,
    Reconnect,
    Message,
}

/// The kind of a package, sent as its first byte.
#[derive(Debug, Clone, Copy, PartialEq, Eq, Structural)]
pub enum PackageType {
    LobbyConnect,
    LobbyDisconnect,
    LobbyConnectionAccept,
    LobbyConnectionDeny,
    LobbyUpdate(LobbyUpdate),
    InvalidPackage,
}

/// The code of a package kind: 0 to 3 for the connection packages, 4 to 8 for
/// the lobby updates in the order of their declaration, 255 for an invalid package.
pub open spec fn package_code(p: PackageType) -> u8 {
    match p {
        PackageType::LobbyConnect => 0,
        PackageType::LobbyDisconnect => 1,
        PackageType::LobbyConnectionAccept => 2,
        PackageType::LobbyConnectionDeny => 3,
        PackageType::LobbyUpdate(u) => match u {
            LobbyUpdate::Connect => 4,
            LobbyUpdate::Disconnect => 5,
            LobbyUpdate::ConnectionInterrupt => 6,
            LobbyUpdate::Reconnect => 7,
            LobbyUpdate::Message => 8,
        },
        PackageType::InvalidPackage => 255,
    }
}

/// The package kind that a byte announces; bytes with no kind are invalid packages.
pub open spec fn package_of_code(b: u8) -> PackageType {
    if b == 0 {
        PackageType::LobbyConnect
    } else if b == 1 {
        PackageType::LobbyDisconnect
    } else if b == 2 {
        PackageType::LobbyConnectionAccept
    } else if b == 3 {
        PackageType::LobbyConnectionDeny
    } else if b == 4 {
        PackageType::LobbyUpdate(LobbyUpdate::Connect)
    } else if b == 5 {
        PackageType::LobbyUpdate(LobbyUpdate::Disconnect)
    } else if b == 6 {
        PackageType::LobbyUpdate(LobbyUpdate::ConnectionInterrupt)
    } else if b == 7 {
        PackageType::LobbyUpdate(LobbyUpdate::Reconnect)
    } else if b == 8 {
        PackageType::LobbyUpdate(LobbyUpdate::Message)
    } else {
        PackageType::InvalidPackage
    }
}

impl PackageType {
    /// The byte that announces this kind of package.
    pub fn to_byte(self) -> (b: u8)
        ensures
            b == package_code(self),
    {
        match self {
            PackageType::LobbyConnect => 0,
            PackageType::LobbyDisconnect => 1,
            PackageType::LobbyConnectionAccept => 2,
            PackageType::LobbyConnectionDeny => 3,
            PackageType::LobbyUpdate(update) => {
                let n: u8 = 4;
                match update {
                    LobbyUpdate::Connect => n,
                    LobbyUpdate::Disconnect => n + 1,
                    LobbyUpdate::ConnectionInterrupt => n + 2,
                    LobbyUpdate::Reconnect => n + 3,
                    LobbyUpdate::Message => n + 4,
                }
            },
            PackageType::InvalidPackage => 255,
        }
    }

    /// The kind of package that a first byte announces.
    pub fn from(value: u8) -> (p: PackageType)
        ensures
            p == package_of_code(value),
    {
        match value {
            0 => PackageType::LobbyConnect,
            1 => PackageType::LobbyDisconnect,
            2 => PackageType::LobbyConnectionAccept,
            3 => PackageType::LobbyConnectionDeny,
            4..=8 => {
                let i: u8 = value - 4;
                PackageType::LobbyUpdate(
                    match i {
                        0 => LobbyUpdate::Connect,
                        1 => LobbyUpdate::Disconnect,
                        2 => LobbyUpdate::ConnectionInterrupt,
                        3 => LobbyUpdate::Reconnect,
                        _ => LobbyUpdate::Message,
                    },
                )
            },
            _ => PackageType::InvalidPackage,
        }
    }
}

/// Every package kind is read back from the byte that announces it.
pub proof fn lemma_package_code_roundtrip(p: PackageType)
    ensures
        package_of_code(package_code(p)) == p,
{
}

/// A byte is announced by the kind it is read as exactly when it is 0 to 8 or
/// 255; every other byte is read as an invalid package, announced by 255.
pub proof fn lemma_code_package_roundtrip(b: u8)
    ensures
        package_code(package_of_code(b)) == (if b <= 8 { b } else { 255u8 }),
        (b > 8 && b != 255) ==> package_of_code(b) == PackageType::InvalidPackage,
{
}

} // verus!
