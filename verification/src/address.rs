//! Network addresses, as the session writes them into headers and logs.

use vstd::prelude::*;

verus! {

/// The view of an optional value.
pub open spec fn viewed<T: View>(value: Option<T>) -> Option<T::V> {
    match value {
        Some(value) => Some(value@),
        None => None,
    }
}

/// `first` if there is one, else `second`.
pub open spec fn first_of<T>(first: Option<T>, second: Option<T>) -> Option<T> {
    match first {
        Some(_) => first,
        None => second,
    }
}

/// An IP address: its family and its text.
#[derive(Debug, PartialEq, Eq)]
pub enum IpAddr {
    V4(String),
    V6(String),
}

pub enum IpAddrView {
    V4(Seq<char>),
    V6(Seq<char>),
}

impl View for IpAddr {
    type V = IpAddrView;

    open spec fn view(&self) -> IpAddrView {
        match self {
            IpAddr::V4(text) => IpAddrView::V4(text@),
            IpAddr::V6(text) => IpAddrView::V6(text@),
        }
    }
}

impl IpAddrView {
    pub open spec fn text(self) -> Seq<char> {
        match self {
            IpAddrView::V4(text) => text,
            IpAddrView::V6(text) => text,
        }
    }

    pub open spec fn is_v6(self) -> bool {
        self is V6
    }
}

impl Clone for IpAddr {
    fn clone(&self) -> (r: Self)
        ensures
            r == *self,
    {
        match self {
            IpAddr::V4(text) => IpAddr::V4(text.clone()),
            IpAddr::V6(text) => IpAddr::V6(text.clone()),
        }
    }
}

impl IpAddr {
    pub fn text(&self) -> (text: &str)
        ensures
            text@ == self@.text(),
    {
        match self {
            IpAddr::V4(text) => text.as_str(),
            IpAddr::V6(text) => text.as_str(),
        }
    }

    pub fn is_v6(&self) -> (r: bool)
        ensures
            r == self@.is_v6(),
    {
        match self {
            IpAddr::V4(_) => false,
            IpAddr::V6(_) => true,
        }
    }
}

/// A socket address: its parts, and the text of the whole.
#[derive(Debug, PartialEq, Eq)]
pub struct SocketAddr {
    pub ip: IpAddr,
    pub port: u16,
    pub display: String,
}

pub struct SocketAddrView {
    pub ip: IpAddrView,
    pub port: u16,
    pub display: Seq<char>,
}

impl View for SocketAddr {
    type V = SocketAddrView;

    open spec fn view(&self) -> SocketAddrView {
        SocketAddrView { ip: self.ip@, port: self.port, display: self.display@ }
    }
}

impl Clone for SocketAddr {
    fn clone(&self) -> (r: Self)
        ensures
            r == *self,
    {
        SocketAddr { ip: self.ip.clone(), port: self.port, display: self.display.clone() }
    }
}

/// The two ends of the client's connection, as the socket reports them. An
/// end that the socket could not tell is missing.
#[derive(Debug, PartialEq, Eq)]
pub struct FrontAddresses {
    pub peer: Option<SocketAddr>,
    pub local: Option<SocketAddr>,
}

pub struct FrontAddressesView {
    pub peer: Option<SocketAddrView>,
    pub local: Option<SocketAddrView>,
}

impl View for FrontAddresses {
    type V = FrontAddressesView;

    open spec fn view(&self) -> FrontAddressesView {
        FrontAddressesView { peer: viewed(self.peer), local: viewed(self.local) }
    }
}

/// A copy of `first` if there is one, else of `second`.
pub(crate) fn clone_first_of(
    first: &Option<SocketAddr>,
    second: &Option<SocketAddr>,
) -> (r: Option<SocketAddr>)
    ensures
        viewed(r) == first_of(viewed(*first), viewed(*second)),
{
    match first {
        Some(address) => Some(address.clone()),
        None => match second {
            Some(address) => Some(address.clone()),
            None => None,
        },
    }
}

} // verus!
