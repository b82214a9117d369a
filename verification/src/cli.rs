//! Forward arguments: the text `[[LOCAL_ADDRESS:]LOCAL_PORT:][NAMESPACE/]SERVICE:PORT`
//! and what it says.

use crate::errors::{MyError, MyErrorView};
use crate::text::{
    find_char, first_index, last_index, lemma_first_index, lemma_last_index, parse_u16,
    rfind_char, u16_of_text,
};
use vstd::prelude::*;
use vstd::string::StringExecFns;

verus! {

/// Options that every connection of one forward target shares.
#[derive(Clone, Debug, PartialEq, Eq)]
pub struct ControlArgs {
    /// Select among all listed pods, ready or not.
    pub ignore_readiness: bool,
    /// End a relay when its pod stops being ready.
    pub close_on_unready: bool,
    /// Pick the pod at a random index instead of the first.
    pub randomise: bool,
}

/// The local address piece of a forward argument as it was written, not yet
/// read as an address: either plain text, or the text between a pair of
/// square brackets.
#[derive(Clone, Debug, PartialEq, Eq)]
pub enum AddressText {
    /// Written without brackets, as an IPv4 address is.
    Plain(String),
    /// Written in square brackets, as an IPv6 address is; the brackets are
    /// taken off.
    Bracketed(String),
}

/// The mathematical value of an [`AddressText`].
pub enum AddressTextView {
    Plain(Seq<char>),
    Bracketed(Seq<char>),
}

impl View for AddressText {
    type V = AddressTextView;

    open spec fn view(&self) -> AddressTextView {
        match self {
            AddressText::Plain(s) => AddressTextView::Plain(s@),
            AddressText::Bracketed(s) => AddressTextView::Bracketed(s@),
        }
    }
}

impl DeepView for AddressText {
    type V = AddressTextView;

    open spec fn deep_view(&self) -> AddressTextView {
        self.view()
    }
}

/// A local address: the four bytes of an IPv4 address, or the eight
/// sixteen-bit groups of an IPv6 address.
#[derive(Clone, Copy, Debug, PartialEq, Eq)]
pub enum LocalAddress {
    V4([u8; 4]),
    V6([u16; 8]),
}

/// One forward target: where to listen locally and which service port the
/// connections go to.
#[derive(Clone, Debug, PartialEq, Eq)]
pub struct Forward {
    pub service_name: String,
    pub service_port: String,
    pub namespace: Option<String>,
    pub local_address: Option<LocalAddress>,
    pub local_port: u16,
}

/// The mathematical value of a [`Forward`].
pub struct ForwardView {
    pub service_name: Seq<char>,
    pub service_port: Seq<char>,
    pub namespace: Option<Seq<char>>,
    pub local_address: Option<LocalAddress>,
    pub local_port: u16,
}

impl View for Forward {
    type V = ForwardView;

    open spec fn view(&self) -> ForwardView {
        ForwardView {
            service_name: self.service_name@,
            service_port: self.service_port@,
            namespace: self.namespace.deep_view(),
            local_address: self.local_address,
            local_port: self.local_port,
        }
    }
}

/// The pieces of a forward argument, cut at its last three colons at most.
pub struct Pieces {
    /// Everything before the third colon from the right, if there are three.
    pub address: Option<Seq<char>>,
    /// The piece before the service, if there are two colons or more.
    pub local_port: Option<Seq<char>>,
    /// The piece before the last colon.
    pub service: Seq<char>,
    /// The piece after the last colon.
    pub port: Seq<char>,
}

/// Cuts `arg` at its colons, from the right, into at most four pieces; `None`
/// where `arg` holds no colon.
pub open spec fn split_pieces(arg: Seq<char>) -> Option<Pieces> {
    let c1 = last_index(arg, ':');
    if c1 < 0 {
        None
    } else {
        let port = arg.subrange(c1 + 1, arg.len() as int);
        let rest1 = arg.subrange(0, c1);
        let c2 = last_index(rest1, ':');
        if c2 < 0 {
            Some(Pieces { address: None, local_port: None, service: rest1, port })
        } else {
            let service = rest1.subrange(c2 + 1, rest1.len() as int);
            let rest2 = rest1.subrange(0, c2);
            let c3 = last_index(rest2, ':');
            if c3 < 0 {
                Some(Pieces { address: None, local_port: Some(rest2), service, port })
            } else {
                Some(
                    Pieces {
                        address: Some(rest2.subrange(0, c3)),
                        local_port: Some(rest2.subrange(c3 + 1, rest2.len() as int)),
                        service,
                        port,
                    },
                )
            }
        }
    }
}

/// How a local address piece is taken: in brackets or plain.
pub open spec fn address_of(text: Seq<char>) -> AddressTextView {
    if text.len() >= 2 && text.first() == '[' && text.last() == ']' {
        AddressTextView::Bracketed(text.subrange(1, text.len() - 1))
    } else {
        AddressTextView::Plain(text)
    }
}

/// The namespace that a service piece names: what stands before its first
/// slash, if it has one.
pub open spec fn namespace_of(service: Seq<char>) -> Option<Seq<char>> {
    let slash = first_index(service, '/');
    if slash < 0 {
        None
    } else {
        Some(service.subrange(0, slash))
    }
}

/// The service name in a service piece: what follows its first slash, or the
/// whole piece where it has none.
pub open spec fn service_name_of(service: Seq<char>) -> Seq<char> {
    let slash = first_index(service, '/');
    if slash < 0 {
        service
    } else {
        service.subrange(slash + 1, service.len() as int)
    }
}

/// The local address piece of a forward argument as it is written: what
/// stands before the third colon from the right, in brackets or plain. An
/// argument with fewer than three colons has none.
pub open spec fn address_piece_of(arg: Seq<char>) -> Option<AddressTextView> {
    match split_pieces(arg) {
        Some(pieces) => match pieces.address {
            Some(text) => Some(address_of(text)),
            None => None,
        },
        None => None,
    }
}

/// What the forward argument `arg` says, or why it says nothing, where
/// `address` is the address that its local address piece denotes, if it has
/// such a piece and the piece denotes one.
///
/// An argument with a local address piece that denotes no address says
/// nothing. The local port is the piece before the service where there is
/// one, and else the service port, which then has to be a number.
pub open spec fn parse_spec(arg: Seq<char>, address: Option<LocalAddress>) -> Result<
    ForwardView,
    MyErrorView,
> {
    match split_pieces(arg) {
        None => Err(MyErrorView::ArgumentParseError(arg)),
        Some(pieces) => {
            let local_port = match pieces.local_port {
                Some(text) => u16_of_text(text),
                None => u16_of_text(pieces.port),
            };
            if pieces.address is Some && address is None {
                Err(MyErrorView::ArgumentParseError(arg))
            } else {
                match local_port {
                    None => if pieces.local_port is Some {
                        Err(MyErrorView::ArgumentParseError(arg))
                    } else {
                        Err(MyErrorView::UnableToInferLocalPort(arg))
                    },
                    Some(port) => Ok(
                        ForwardView {
                            service_name: service_name_of(pieces.service),
                            service_port: pieces.port,
                            namespace: namespace_of(pieces.service),
                            local_address: if pieces.address is Some {
                                address
                            } else {
                                None
                            },
                            local_port: port,
                        },
                    ),
                }
            }
        },
    }
}

/// Takes a local address piece as bracketed or plain text.
pub fn read_address(text: &str) -> (address: AddressText)
    ensures
        address@ == address_of(text@),
{
    let n = text.unicode_len();
    if n >= 2 && text.get_char(0) == '[' && text.get_char(n - 1) == ']' {
        AddressText::Bracketed(text.substring_char(1, n - 1).to_owned())
    } else {
        AddressText::Plain(text.to_owned())
    }
}

/// The pieces of a forward argument as they stand in it.
pub struct Cut<'a> {
    pub address: Option<&'a str>,
    pub local_port: Option<&'a str>,
    pub service: &'a str,
    pub port: &'a str,
}

/// Whether `cut` holds the pieces `pieces`.
pub open spec fn cut_is(cut: Cut, pieces: Pieces) -> bool {
    &&& match cut.address {
        Some(text) => pieces.address == Some(text@),
        None => pieces.address is None,
    }
    &&& match cut.local_port {
        Some(text) => pieces.local_port == Some(text@),
        None => pieces.local_port is None,
    }
    &&& cut.service@ == pieces.service
    &&& cut.port@ == pieces.port
}

/// Cuts a forward argument at its colons, from the right, into at most four
/// pieces.
pub fn cut<'a>(arg: &'a str) -> (pieces: Option<Cut<'a>>)
    ensures
        match pieces {
            Some(cut) => split_pieces(arg@) is Some && cut_is(cut, split_pieces(arg@)->0),
            None => split_pieces(arg@) is None,
        },
{
    let n = arg.unicode_len();
    let c1 = match rfind_char(arg, ':') {
        None => {
            return None;
        },
        Some(c1) => c1,
    };
    proof {
        lemma_last_index(arg@, ':');
    }
    let port = arg.substring_char(c1 + 1, n);
    let rest1 = arg.substring_char(0, c1);
    match rfind_char(rest1, ':') {
        None => Some(Cut { address: None, local_port: None, service: rest1, port }),
        Some(c2) => {
            proof {
                lemma_last_index(rest1@, ':');
            }
            let service = rest1.substring_char(c2 + 1, c1);
            let rest2 = rest1.substring_char(0, c2);
            match rfind_char(rest2, ':') {
                None => Some(Cut { address: None, local_port: Some(rest2), service, port }),
                Some(c3) => {
                    proof {
                        lemma_last_index(rest2@, ':');
                    }
                    Some(
                        Cut {
                            address: Some(rest2.substring_char(0, c3)),
                            local_port: Some(rest2.substring_char(c3 + 1, c2)),
                            service,
                            port,
                        },
                    )
                },
            }
        },
    }
}

/// Finds the local address piece of a forward argument: the text that is to
/// be read as an address, with its brackets taken off where it has them.
pub fn address_piece(arg: &str) -> (piece: Option<AddressText>)
    ensures
        piece.deep_view() == address_piece_of(arg@),
{
    match cut(arg) {
        Some(pieces) => match pieces.address {
            Some(text) => Some(read_address(text)),
            None => None,
        },
        None => None,
    }
}

impl Forward {
    /// Reads one forward argument, given the address that its local address
    /// piece denotes, if it has such a piece and the piece denotes an
    /// address.
    ///
    /// Fails with `ArgumentParseError` where the argument holds no colon,
    /// where it has a local address piece that denotes no address, and where
    /// its local port piece is no 16-bit number; and with
    /// `UnableToInferLocalPort` where it names no local port and its service
    /// port is no 16-bit number. An address given for an argument without
    /// local address piece is not used.
    pub fn parse(arg: &str, address: Option<LocalAddress>) -> (result: Result<Forward, MyError>)
        ensures
            match result {
                Ok(forward) => parse_spec(arg@, address) == Ok::<ForwardView, MyErrorView>(
                    forward@,
                ),
                Err(e) => parse_spec(arg@, address) == Err::<ForwardView, MyErrorView>(e@),
            },
    {
        let pieces = match cut(arg) {
            None => {
                return Err(MyError::ArgumentParseError(arg.to_owned()));
            },
            Some(pieces) => pieces,
        };
        let local_address = match pieces.address {
            Some(_) => match address {
                Some(address) => Some(address),
                None => {
                    return Err(MyError::ArgumentParseError(arg.to_owned()));
                },
            },
            None => None,
        };
        let local_port = match pieces.local_port {
            Some(text) => match parse_u16(text) {
                Some(p) => p,
                None => {
                    return Err(MyError::ArgumentParseError(arg.to_owned()));
                },
            },
            None => match parse_u16(pieces.port) {
                Some(p) => p,
                None => {
                    return Err(MyError::UnableToInferLocalPort(arg.to_owned()));
                },
            },
        };
        let service = pieces.service;
        let namespace: Option<String>;
        let service_name: String;
        match find_char(service, '/') {
            None => {
                namespace = None;
                service_name = service.to_owned();
            },
            Some(slash) => {
                proof {
                    lemma_first_index(service@, '/');
                }
                let m = service.unicode_len();
                namespace = Some(service.substring_char(0, slash).to_owned());
                service_name = service.substring_char(slash + 1, m).to_owned();
            },
        }
        Ok(
            Forward {
                service_name,
                service_port: pieces.port.to_owned(),
                namespace,
                local_address,
                local_port,
            },
        )
    }
}

/// An argument with a local address piece says something only with the
/// address that the piece denotes: where the piece denotes none, the
/// argument is refused, whatever its other pieces are; and where it denotes
/// one, that address is the local address of the forward.
pub proof fn lemma_address_decides(arg: Seq<char>, address: Option<LocalAddress>)
    requires
        address_piece_of(arg) is Some,
    ensures
        address is None ==> parse_spec(arg, address) == Err::<ForwardView, MyErrorView>(
            MyErrorView::ArgumentParseError(arg),
        ),
        parse_spec(arg, address) matches Ok(forward) ==> address is Some && forward.local_address
            == address,
        parse_spec(arg, address) matches Err(e) ==> e == MyErrorView::ArgumentParseError(arg),
{
}

/// An argument without local address piece has no local address, whatever
/// address is offered for it.
pub proof fn lemma_no_address_piece(arg: Seq<char>, address: Option<LocalAddress>)
    requires
        address_piece_of(arg) is None,
    ensures
        parse_spec(arg, address) == parse_spec(arg, None),
        parse_spec(arg, address) matches Ok(forward) ==> forward.local_address is None,
{
}

/// An argument that names no local port says something exactly if its
/// service port is a 16-bit number, and that number is then its local port;
/// a service port given by name cannot stand in for a local port.
pub proof fn lemma_local_port_inferred(arg: Seq<char>, address: Option<LocalAddress>)
    requires
        split_pieces(arg) is Some,
        split_pieces(arg)->0.local_port is None,
    ensures
        parse_spec(arg, address) is Ok <==> u16_of_text(split_pieces(arg)->0.port) is Some,
        parse_spec(arg, address) matches Ok(forward) ==> Some(forward.local_port) == u16_of_text(
            forward.service_port,
        ),
        parse_spec(arg, address) matches Err(e) ==> e == MyErrorView::UnableToInferLocalPort(arg),
{
}

/// An argument that names a local port says something exactly if that piece
/// is a 16-bit number and its local address piece, if it has one, denotes
/// an address; whatever its service port is.
pub proof fn lemma_local_port_given(arg: Seq<char>, address: Option<LocalAddress>)
    requires
        split_pieces(arg) is Some,
        split_pieces(arg)->0.local_port is Some,
    ensures
        parse_spec(arg, address) is Ok <==> (u16_of_text(split_pieces(arg)->0.local_port->0) is Some
            && (address_piece_of(arg) is Some ==> address is Some)),
        parse_spec(arg, address) matches Ok(forward) ==> Some(forward.local_port) == u16_of_text(
            split_pieces(arg)->0.local_port->0,
        ) && forward.service_port == split_pieces(arg)->0.port,
        parse_spec(arg, address) matches Err(e) ==> e == MyErrorView::ArgumentParseError(arg),
{
}

/// How a forward target is named in what the forwarder says of it: the
/// namespace, which is that of the forward or else the default one, then a
/// slash, the service name, a colon and the service port.
pub open spec fn target_label_of(forward: ForwardView, default_namespace: Seq<char>) -> Seq<char> {
    let namespace = match forward.namespace {
        Some(namespace) => namespace,
        None => default_namespace,
    };
    namespace + seq!['/'] + forward.service_name + seq![':'] + forward.service_port
}

/// Names a forward target as `NAMESPACE/SERVICE:PORT`.
pub fn target_label(forward: &Forward, default_namespace: &str) -> (label: String)
    ensures
        label@ == target_label_of(forward@, default_namespace@),
{
    proof {
        reveal_strlit("/");
        reveal_strlit(":");
        assert("/"@ =~= seq!['/']);
        assert(":"@ =~= seq![':']);
    }
    let mut label = match &forward.namespace {
        Some(namespace) => namespace.clone(),
        None => String::from_str(default_namespace),
    };
    label.append("/");
    label.append(forward.service_name.as_str());
    label.append(":");
    label.append(forward.service_port.as_str());
    label
}

} // verus!
