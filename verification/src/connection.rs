//! The address of the node and what is shown while connecting to it.

use vstd::prelude::*;
use crate::decimal::{
    decimal_int, decimal_int_is_faithful, decimal_is_faithful, decimal_nat, digits_value, format_i64,
    lemma_shows_number, shows_number,
};

verus! {

/// Where the node listens: a URL and a port.
pub struct NodeConnection {
    url: String,
    port: i32,
}

/// The text of an address: the URL, a colon, and the port in decimal.
pub open spec fn address_text(url: Seq<char>, port: int) -> Seq<char> {
    url + ":"@ + decimal_int(port)
}

/// The banner printed before the first request goes out.
pub open spec fn banner_text(url: Seq<char>, port: int) -> Seq<char> {
    "\nAttempting to connect to Zebrad @ "@ + address_text(url, port) + "\n.\n.\n."@
}

/// What is reported once the first request was answered with `code`.
pub open spec fn connection_text(code: u32) -> Seq<char> {
    if code == 200 {
        "Connected!"@
    } else {
        "No response!"@
    }
}

/// The address shows the port itself: after the URL and a colon comes a
/// decimal numeral that denotes the port, and nothing after it.
pub proof fn address_shows_port(url: Seq<char>, port: int)
    ensures
        shows_number(address_text(url, port), url + ":"@, Seq::empty(), port),
{
    decimal_int_is_faithful(port);
    lemma_shows_number(url + ":"@, decimal_int(port), Seq::empty(), port);
    assert(url + ":"@ + decimal_int(port) + Seq::<char>::empty() =~= address_text(url, port));
}

/// The connection counts as made exactly when the status reads "200", as
/// the status text is compared; any other status is no response.
pub proof fn connected_exactly_on_200(code: u32)
    ensures
        (connection_text(code) == "Connected!"@) <==> decimal_nat(code as nat) == "200"@,
        connection_text(code) == "Connected!"@ || connection_text(code) == "No response!"@,
{
    reveal_strlit("Connected!");
    reveal_strlit("No response!");
    reveal_strlit("200");
    let two_hundred = "200"@;
    assert(two_hundred.drop_last().drop_last().drop_last() =~= Seq::<char>::empty());
    assert(digits_value(two_hundred.drop_last().drop_last().drop_last()) == 0);
    assert(digits_value(two_hundred.drop_last().drop_last()) == 2);
    assert(digits_value(two_hundred.drop_last()) == 20);
    assert(digits_value(two_hundred) == 200);
    if code == 200 {
        assert(decimal_nat(2) =~= seq!['2']);
        assert(decimal_nat(20) =~= seq!['2', '0']);
        assert(decimal_nat(200) =~= two_hundred);
    } else {
        decimal_is_faithful(code as nat);
        assert("Connected!"@.len() != "No response!"@.len());
    }
}

impl NodeConnection {
    /// The URL of the node.
    pub closed spec fn url_text(&self) -> Seq<char> {
        self.url@
    }

    /// The port of the node.
    pub closed spec fn port_number(&self) -> int {
        self.port as int
    }

    /// A connection to `url` on `port`.
    pub fn new(url: String, port: i32) -> (c: NodeConnection)
        ensures
            c.url_text() == url@,
            c.port_number() == port as int,
    {
        NodeConnection { url, port }
    }

    /// The address that requests are posted to: `url:port`.
    pub fn display(&self) -> (s: String)
        ensures
            s@ == address_text(self.url_text(), self.port_number()),
    {
        let mut s = self.url.clone();
        s.append(":");
        let port = format_i64(self.port as i64);
        s.append(port.as_str());
        s
    }

    /// The banner printed before connecting.
    pub fn connect_banner(&self) -> (s: String)
        ensures
            s@ == banner_text(self.url_text(), self.port_number()),
    {
        let mut s = String::from_str("\nAttempting to connect to Zebrad @ ");
        let address = self.display();
        s.append(address.as_str());
        s.append("\n.\n.\n.");
        s
    }
}

/// "Connected!" when the node answered with status 200, "No response!"
/// otherwise.
pub fn connection_message(code: u32) -> (s: &'static str)
    ensures
        s@ == connection_text(code),
{
    if code == 200 {
        "Connected!"
    } else {
        "No response!"
    }
}

} // verus!
