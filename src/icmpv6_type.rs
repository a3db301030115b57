//! ICMPv6 message types (RFC 4443 and the IANA registry).
use vstd::prelude::*;
use vstd::string::StringExecFns;

verus! {

/// An ICMPv6 message type. The four private-experimentation numbers share
/// one tag.
#[derive(Clone, Copy, Debug, PartialEq, Eq, Structural)]
pub enum ICMPv6Type {
    DestinationUnreachable,
    PacketTooBig,
    TimeExceeded,
    ParameterProblem,
    PrivateExperimentation,
    EchoRequest,
    EchoReply,
    MulticastListenerQuery,
    MulticastListenerReport,
    MulticastListenerDone,
    RouterSolicitation,
    RouterAdvertisement,
    NeighbourSolicitation,
    NeighbourAdvertisement,
    RedirectMessage,
    RouterRenumbering,
    ICMPNodeInformationQuery,
    ICMPNodeInformationResponse,
    InverseNeighborDiscoverySolicitationMessage,
    InverseNeighborDiscoveryAdvertisementMessage,
    Version2MulticastListenerReport,
    HomeAgentAddressDiscoveryRequestMessage,
    HomeAgentAddressDiscoveryReplyMessage,
    MobilePrefixSolicitation,
    MobilePrefixAdvertisement,
    CertificationPathSolicicationMessage,
    CertificationPathAdvertisementMessage,
    ExperimentalMobilityProtools,
    MulticastRouterAdvertisement,
    MulticastRouterSoliciation,
    MulticastRouterTermination,
    FMIPv6Messages,
    RPLControlMessage,
    ILNPv6LocatorUpdateMessage,
    DuplicateAddressRequest,
    DuplicateAddressConfirmation,
    MPLControlMessage,
    ExtendedEchoRequest,
    ExtendedEchoReply,
}

impl ICMPv6Type {
    /// The type that the number `n` names: `None` for the reserved numbers
    /// 0, 127 and 255 and for numbers that the registry does not assign.
    pub open spec fn from_number(n: u8) -> Option<ICMPv6Type> {
        if n == 1 {
            Some(ICMPv6Type::DestinationUnreachable)
        } else if n == 2 {
            Some(ICMPv6Type::PacketTooBig)
        } else if n == 3 {
            Some(ICMPv6Type::TimeExceeded)
        } else if n == 4 {
            Some(ICMPv6Type::ParameterProblem)
        } else if n == 100 || n == 101 || n == 200 || n == 201 {
            Some(ICMPv6Type::PrivateExperimentation)
        } else if n == 128 {
            Some(ICMPv6Type::EchoRequest)
        } else if n == 129 {
            Some(ICMPv6Type::EchoReply)
        } else if n == 130 {
            Some(ICMPv6Type::MulticastListenerQuery)
        } else if n == 131 {
            Some(ICMPv6Type::MulticastListenerReport)
        } else if n == 132 {
            Some(ICMPv6Type::MulticastListenerDone)
        } else if n == 133 {
            Some(ICMPv6Type::RouterSolicitation)
        } else if n == 134 {
            Some(ICMPv6Type::RouterAdvertisement)
        } else if n == 135 {
            Some(ICMPv6Type::NeighbourSolicitation)
        } else if n == 136 {
            Some(ICMPv6Type::NeighbourAdvertisement)
        } else if n == 137 {
            Some(ICMPv6Type::RedirectMessage)
        } else if n == 138 {
            Some(ICMPv6Type::RouterRenumbering)
        } else if n == 139 {
            Some(ICMPv6Type::ICMPNodeInformationQuery)
        } else if n == 140 {
            Some(ICMPv6Type::ICMPNodeInformationResponse)
        } else if n == 141 {
            Some(ICMPv6Type::InverseNeighborDiscoverySolicitationMessage)
        } else if n == 142 {
            Some(ICMPv6Type::InverseNeighborDiscoveryAdvertisementMessage)
        } else if n == 143 {
            Some(ICMPv6Type::Version2MulticastListenerReport)
        } else if n == 144 {
            Some(ICMPv6Type::HomeAgentAddressDiscoveryRequestMessage)
        } else if n == 145 {
            Some(ICMPv6Type::HomeAgentAddressDiscoveryReplyMessage)
        } else if n == 146 {
            Some(ICMPv6Type::MobilePrefixSolicitation)
        } else if n == 147 {
            Some(ICMPv6Type::MobilePrefixAdvertisement)
        } else if n == 148 {
            Some(ICMPv6Type::CertificationPathSolicicationMessage)
        } else if n == 149 {
            Some(ICMPv6Type::CertificationPathAdvertisementMessage)
        } else if n == 150 {
            Some(ICMPv6Type::ExperimentalMobilityProtools)
        } else if n == 151 {
            Some(ICMPv6Type::MulticastRouterAdvertisement)
        } else if n == 152 {
            Some(ICMPv6Type::MulticastRouterSoliciation)
        } else if n == 153 {
            Some(ICMPv6Type::MulticastRouterTermination)
        } else if n == 154 {
            Some(ICMPv6Type::FMIPv6Messages)
        } else if n == 155 {
            Some(ICMPv6Type::RPLControlMessage)
        } else if n == 156 {
            Some(ICMPv6Type::ILNPv6LocatorUpdateMessage)
        } else if n == 157 {
            Some(ICMPv6Type::DuplicateAddressRequest)
        } else if n == 158 {
            Some(ICMPv6Type::DuplicateAddressConfirmation)
        } else if n == 159 {
            Some(ICMPv6Type::MPLControlMessage)
        } else if n == 160 {
            Some(ICMPv6Type::ExtendedEchoRequest)
        } else if n == 161 {
            Some(ICMPv6Type::ExtendedEchoReply)
        } else {
            None
        }
    }

    /// The type's description.
    pub open spec fn description(self) -> &'static str {
        match self {
            ICMPv6Type::DestinationUnreachable => "Destination Unreachable",
            ICMPv6Type::PacketTooBig => "Packet too big",
            ICMPv6Type::TimeExceeded => "Time exceeded",
            ICMPv6Type::ParameterProblem => "Parameter problem",
            ICMPv6Type::PrivateExperimentation => "Private experimentation",
            ICMPv6Type::EchoRequest => "Echo request",
            ICMPv6Type::EchoReply => "Echo reply",
            ICMPv6Type::MulticastListenerQuery => "Multicast listener query",
            ICMPv6Type::MulticastListenerReport => "Multicast listener report",
            ICMPv6Type::MulticastListenerDone => "Multicast listener done",
            ICMPv6Type::RouterSolicitation => "Router solicitation",
            ICMPv6Type::RouterAdvertisement => "Router advertisement",
            ICMPv6Type::NeighbourSolicitation => "Neighbour solicitation",
            ICMPv6Type::NeighbourAdvertisement => "Neighbour advertisement",
            ICMPv6Type::RedirectMessage => "Redirect message",
            ICMPv6Type::RouterRenumbering => "Router renumbering",
            ICMPv6Type::ICMPNodeInformationQuery => "ICMP node information query",
            ICMPv6Type::ICMPNodeInformationResponse => "ICMP node information response",
            ICMPv6Type::InverseNeighborDiscoverySolicitationMessage => "Inverse neighbor discovery solicitation message",
            ICMPv6Type::InverseNeighborDiscoveryAdvertisementMessage => "Inverse neighbor discovery advertisement message",
            ICMPv6Type::Version2MulticastListenerReport => "Version 2 multicast listener report",
            ICMPv6Type::HomeAgentAddressDiscoveryRequestMessage => "Home agent address discovery request message",
            ICMPv6Type::HomeAgentAddressDiscoveryReplyMessage => "Home agent address discovery reply message",
            ICMPv6Type::MobilePrefixSolicitation => "Mobile prefix solicitation",
            ICMPv6Type::MobilePrefixAdvertisement => "Mobile prefix advertisement",
            ICMPv6Type::CertificationPathSolicicationMessage => "Certification path solicitation message",
            ICMPv6Type::CertificationPathAdvertisementMessage => "Certification path advertisement message",
            ICMPv6Type::ExperimentalMobilityProtools => "Experimental mobility protocols",
            ICMPv6Type::MulticastRouterAdvertisement => "Multicast router advertisement",
            ICMPv6Type::MulticastRouterSoliciation => "Multicast router solicitation",
            ICMPv6Type::MulticastRouterTermination => "Multicast router termination",
            ICMPv6Type::FMIPv6Messages => "FM IPv6 messages (Fast Mobile Handovers)",
            ICMPv6Type::RPLControlMessage => "RPL Control message (Routing Protocol for Low-Power and lossy networks)",
            ICMPv6Type::ILNPv6LocatorUpdateMessage => "ILNPv6 Locator Update Message (Identifier-Locator Network Protocol for IPv6)",
            ICMPv6Type::DuplicateAddressRequest => "Duplicate address request",
            ICMPv6Type::DuplicateAddressConfirmation => "Duplicate address confirmation",
            ICMPv6Type::MPLControlMessage => "MPL control message (Multicast Protocol for Low-Power and Lossy Networks)",
            ICMPv6Type::ExtendedEchoRequest => "Extended echo request",
            ICMPv6Type::ExtendedEchoReply => "Extended echo reply",
        }
    }

    /// The type's description.
    pub fn to_short_string(&self) -> (r: String)
        ensures
            r@ == self.description()@,
    {
        match self {
            ICMPv6Type::DestinationUnreachable => String::from_str("Destination Unreachable"),
            ICMPv6Type::PacketTooBig => String::from_str("Packet too big"),
            ICMPv6Type::TimeExceeded => String::from_str("Time exceeded"),
            ICMPv6Type::ParameterProblem => String::from_str("Parameter problem"),
            ICMPv6Type::PrivateExperimentation => String::from_str("Private experimentation"),
            ICMPv6Type::EchoRequest => String::from_str("Echo request"),
            ICMPv6Type::EchoReply => String::from_str("Echo reply"),
            ICMPv6Type::MulticastListenerQuery => String::from_str("Multicast listener query"),
            ICMPv6Type::MulticastListenerReport => String::from_str("Multicast listener report"),
            ICMPv6Type::MulticastListenerDone => String::from_str("Multicast listener done"),
            ICMPv6Type::RouterSolicitation => String::from_str("Router solicitation"),
            ICMPv6Type::RouterAdvertisement => String::from_str("Router advertisement"),
            ICMPv6Type::NeighbourSolicitation => String::from_str("Neighbour solicitation"),
            ICMPv6Type::NeighbourAdvertisement => String::from_str("Neighbour advertisement"),
            ICMPv6Type::RedirectMessage => String::from_str("Redirect message"),
            ICMPv6Type::RouterRenumbering => String::from_str("Router renumbering"),
            ICMPv6Type::ICMPNodeInformationQuery => String::from_str("ICMP node information query"),
            ICMPv6Type::ICMPNodeInformationResponse => String::from_str("ICMP node information response"),
            ICMPv6Type::InverseNeighborDiscoverySolicitationMessage => String::from_str("Inverse neighbor discovery solicitation message"),
            ICMPv6Type::InverseNeighborDiscoveryAdvertisementMessage => String::from_str("Inverse neighbor discovery advertisement message"),
            ICMPv6Type::Version2MulticastListenerReport => String::from_str("Version 2 multicast listener report"),
            ICMPv6Type::HomeAgentAddressDiscoveryRequestMessage => String::from_str("Home agent address discovery request message"),
            ICMPv6Type::HomeAgentAddressDiscoveryReplyMessage => String::from_str("Home agent address discovery reply message"),
            ICMPv6Type::MobilePrefixSolicitation => String::from_str("Mobile prefix solicitation"),
            ICMPv6Type::MobilePrefixAdvertisement => String::from_str("Mobile prefix advertisement"),
            ICMPv6Type::CertificationPathSolicicationMessage => String::from_str("Certification path solicitation message"),
            ICMPv6Type::CertificationPathAdvertisementMessage => String::from_str("Certification path advertisement message"),
            ICMPv6Type::ExperimentalMobilityProtools => String::from_str("Experimental mobility protocols"),
            ICMPv6Type::MulticastRouterAdvertisement => String::from_str("Multicast router advertisement"),
            ICMPv6Type::MulticastRouterSoliciation => String::from_str("Multicast router solicitation"),
            ICMPv6Type::MulticastRouterTermination => String::from_str("Multicast router termination"),
            ICMPv6Type::FMIPv6Messages => String::from_str("FM IPv6 messages (Fast Mobile Handovers)"),
            ICMPv6Type::RPLControlMessage => String::from_str("RPL Control message (Routing Protocol for Low-Power and lossy networks)"),
            ICMPv6Type::ILNPv6LocatorUpdateMessage => String::from_str("ILNPv6 Locator Update Message (Identifier-Locator Network Protocol for IPv6)"),
            ICMPv6Type::DuplicateAddressRequest => String::from_str("Duplicate address request"),
            ICMPv6Type::DuplicateAddressConfirmation => String::from_str("Duplicate address confirmation"),
            ICMPv6Type::MPLControlMessage => String::from_str("MPL control message (Multicast Protocol for Low-Power and Lossy Networks)"),
            ICMPv6Type::ExtendedEchoRequest => String::from_str("Extended echo request"),
            ICMPv6Type::ExtendedEchoReply => String::from_str("Extended echo reply"),
        }
    }

    /// The type of an ICMPv6 message whose type number is `message_type`;
    /// `None` for a reserved or unassigned number. The code and the message
    /// body do not take part.
    pub fn parse(message_type: u8, code: u8, message: &mut &[u8]) -> (r: Option<Self>)
        ensures
            r == ICMPv6Type::from_number(message_type),
            final(message)@ == old(message)@,
    {
        match message_type {
            1 => Some(ICMPv6Type::DestinationUnreachable),
            2 => Some(ICMPv6Type::PacketTooBig),
            3 => Some(ICMPv6Type::TimeExceeded),
            4 => Some(ICMPv6Type::ParameterProblem),
            100 | 101 | 200 | 201 => Some(ICMPv6Type::PrivateExperimentation),
            128 => Some(ICMPv6Type::EchoRequest),
            129 => Some(ICMPv6Type::EchoReply),
            130 => Some(ICMPv6Type::MulticastListenerQuery),
            131 => Some(ICMPv6Type::MulticastListenerReport),
            132 => Some(ICMPv6Type::MulticastListenerDone),
            133 => Some(ICMPv6Type::RouterSolicitation),
            134 => Some(ICMPv6Type::RouterAdvertisement),
            135 => Some(ICMPv6Type::NeighbourSolicitation),
            136 => Some(ICMPv6Type::NeighbourAdvertisement),
            137 => Some(ICMPv6Type::RedirectMessage),
            138 => Some(ICMPv6Type::RouterRenumbering),
            139 => Some(ICMPv6Type::ICMPNodeInformationQuery),
            140 => Some(ICMPv6Type::ICMPNodeInformationResponse),
            141 => Some(ICMPv6Type::InverseNeighborDiscoverySolicitationMessage),
            142 => Some(ICMPv6Type::InverseNeighborDiscoveryAdvertisementMessage),
            143 => Some(ICMPv6Type::Version2MulticastListenerReport),
            144 => Some(ICMPv6Type::HomeAgentAddressDiscoveryRequestMessage),
            145 => Some(ICMPv6Type::HomeAgentAddressDiscoveryReplyMessage),
            146 => Some(ICMPv6Type::MobilePrefixSolicitation),
            147 => Some(ICMPv6Type::MobilePrefixAdvertisement),
            148 => Some(ICMPv6Type::CertificationPathSolicicationMessage),
            149 => Some(ICMPv6Type::CertificationPathAdvertisementMessage),
            150 => Some(ICMPv6Type::ExperimentalMobilityProtools),
            151 => Some(ICMPv6Type::MulticastRouterAdvertisement),
            152 => Some(ICMPv6Type::MulticastRouterSoliciation),
            153 => Some(ICMPv6Type::MulticastRouterTermination),
            154 => Some(ICMPv6Type::FMIPv6Messages),
            155 => Some(ICMPv6Type::RPLControlMessage),
            156 => Some(ICMPv6Type::ILNPv6LocatorUpdateMessage),
            157 => Some(ICMPv6Type::DuplicateAddressRequest),
            158 => Some(ICMPv6Type::DuplicateAddressConfirmation),
            159 => Some(ICMPv6Type::MPLControlMessage),
            160 => Some(ICMPv6Type::ExtendedEchoRequest),
            161 => Some(ICMPv6Type::ExtendedEchoReply),
            _ => None,
        }
    }
}

} // verus!
