//! The JSON-RPC requests sent to the node, the files their answers are kept
//! in, and the report printed for each exchange.

use vstd::prelude::*;
use crate::decimal::{all_digits, decimal_is_faithful, decimal_nat, digits_value, format_u64};

verus! {

/// The RPC methods of the node that the program uses.
#[derive(Clone, Copy, PartialEq, Eq, Structural, Debug)]
pub enum RpcMethod {
    GetInfo,
    GetRawMempool,
    GetBlockchainInfo,
    GetRawTransaction,
    GetBlock,
    GetPeerInfo,
}

/// One request: a method and, for a transaction or a block, the id typed by
/// the user.
#[derive(Debug)]
pub enum RpcCall {
    GetInfo,
    GetRawMempool,
    GetBlockchainInfo,
    GetRawTransaction(String),
    GetBlock(String),
    GetPeerInfo,
}

impl View for RpcCall {
    /// The method, and the text of its argument (empty where it takes none).
    type V = (RpcMethod, Seq<char>);

    open spec fn view(&self) -> (RpcMethod, Seq<char>) {
        match self {
            RpcCall::GetInfo => (RpcMethod::GetInfo, Seq::empty()),
            RpcCall::GetRawMempool => (RpcMethod::GetRawMempool, Seq::empty()),
            RpcCall::GetBlockchainInfo => (RpcMethod::GetBlockchainInfo, Seq::empty()),
            RpcCall::GetRawTransaction(txid) => (RpcMethod::GetRawTransaction, txid@),
            RpcCall::GetBlock(block) => (RpcMethod::GetBlock, block@),
            RpcCall::GetPeerInfo => (RpcMethod::GetPeerInfo, Seq::empty()),
        }
    }
}

/// The name of a method as the node knows it.
pub open spec fn method_text(m: RpcMethod) -> Seq<char> {
    match m {
        RpcMethod::GetInfo => "getinfo"@,
        RpcMethod::GetRawMempool => "getrawmempool"@,
        RpcMethod::GetBlockchainInfo => "getblockchaininfo"@,
        RpcMethod::GetRawTransaction => "getrawtransaction"@,
        RpcMethod::GetBlock => "getblock"@,
        RpcMethod::GetPeerInfo => "getpeerinfo"@,
    }
}

/// The JSON text of the parameters: a transaction id is asked for verbosely
/// (1), a block with its transactions (2); the id is put in as typed.
pub open spec fn params_text(m: RpcMethod, arg: Seq<char>) -> Seq<char> {
    match m {
        RpcMethod::GetRawMempool => "[true]"@,
        RpcMethod::GetRawTransaction => "[\""@ + arg + "\",1]"@,
        RpcMethod::GetBlock => "[\""@ + arg + "\",2]"@,
        _ => "[]"@,
    }
}

/// The request body with spaces after the colons.
pub open spec fn spaced_body(method: Seq<char>, params: Seq<char>) -> Seq<char> {
    "{\"jsonrpc\": \"1.0\", \"id\":\"curltest\", \"method\": \""@ + method + "\", \"params\": "@
        + params + "}"@
}

/// The request body without spaces after most colons.
pub open spec fn compact_body(method: Seq<char>, params: Seq<char>) -> Seq<char> {
    "{\"jsonrpc\":\"1.0\", \"id\": \"curltest\", \"method\":\""@ + method + "\",\"params\":"@
        + params + "}"@
}

/// Whether the body of `m` is written in the compact form.
pub open spec fn is_compact(m: RpcMethod) -> bool {
    m == RpcMethod::GetRawMempool || m == RpcMethod::GetBlockchainInfo
}

/// The JSON-RPC body posted for method `m` with argument `arg`.
pub open spec fn body_text(m: RpcMethod, arg: Seq<char>) -> Seq<char> {
    if is_compact(m) {
        compact_body(method_text(m), params_text(m, arg))
    } else {
        spaced_body(method_text(m), params_text(m, arg))
    }
}

/// Where the answer to `m` is kept: the raw answer's file, the file that
/// receives the part `jq` extracts, and the `jq` filter. The first request
/// (`getinfo`) keeps nothing.
pub open spec fn saved_files(m: RpcMethod) -> Option<(Seq<char>, Seq<char>, Seq<char>)> {
    match m {
        RpcMethod::GetInfo => None,
        RpcMethod::GetRawMempool => Some(
            ("mempool_output.json"@, "mempool_new.json"@, ".result"@),
        ),
        RpcMethod::GetBlockchainInfo => Some(("output.json"@, "new.json"@, ".result"@)),
        RpcMethod::GetRawTransaction => Some(("txid_output.json"@, "txid_new.json"@, ".result"@)),
        RpcMethod::GetBlock => Some(("block_output.json"@, "block_new.json"@, ".result"@)),
        RpcMethod::GetPeerInfo => Some(
            ("peer_output.json"@, "peer_new.json"@, ".result.[].addr"@),
        ),
    }
}

/// The report printed after an exchange: the method (quoted, as `{:#?}`
/// prints it), the HTTP status and the number of bytes received, followed by
/// an empty line.
pub open spec fn report_text(m: RpcMethod, code: u32, received: usize) -> Seq<char> {
    "Zebrad RPC    : \""@ + method_text(m) + "\"\nResponse      :  "@ + decimal_nat(code as nat)
        + "\nReceived bytes:  "@ + decimal_nat(received as nat) + " \n\n"@
}

/// The files removed when the program ends.
pub open spec fn scratch_file_texts() -> Seq<Seq<char>> {
    seq![
        "output.json"@,
        "new.json"@,
        "mempool_new.json"@,
        "mempool_output.json"@,
        "txid_new.json"@,
        "txid_output.json"@,
        "block_new.json"@,
        "block_output.json"@,
        "peer_output.json"@,
        "peer_new.json"@,
    ]
}

/// The text placed before the method name in a spaced body.
pub open spec fn spaced_prefix() -> Seq<char> {
    "{\"jsonrpc\": \"1.0\", \"id\":\"curltest\", \"method\": \""@
}

/// The text placed before the method name in a compact body.
pub open spec fn compact_prefix() -> Seq<char> {
    "{\"jsonrpc\":\"1.0\", \"id\": \"curltest\", \"method\":\""@
}

proof fn lemma_body_shape(m: RpcMethod, arg: Seq<char>)
    ensures
        spaced_prefix().len() > 11,
        compact_prefix().len() > 11,
        method_text(m).len() > 3,
        body_text(m, arg)[11] == (if is_compact(m) { '"' } else { ' ' }),
        is_compact(m) ==> body_text(m, arg)[compact_prefix().len() as int + 3] == method_text(m)[3],
        !is_compact(m) ==> body_text(m, arg)[spaced_prefix().len() as int + 3] == method_text(m)[3],
{
    reveal_strlit("{\"jsonrpc\": \"1.0\", \"id\":\"curltest\", \"method\": \"");
    reveal_strlit("{\"jsonrpc\":\"1.0\", \"id\": \"curltest\", \"method\":\"");
    reveal_strlit("getinfo");
    reveal_strlit("getrawmempool");
    reveal_strlit("getblockchaininfo");
    reveal_strlit("getrawtransaction");
    reveal_strlit("getblock");
    reveal_strlit("getpeerinfo");
    let b = body_text(m, arg);
    let mt = method_text(m);
    let pt = params_text(m, arg);
    if is_compact(m) {
        let p = compact_prefix();
        assert(b =~= p + (mt + ("\",\"params\":"@ + pt + "}"@)));
        assert(b[11] == p[11]);
        assert(b[p.len() as int + 3] == mt[3]);
    } else {
        let p = spaced_prefix();
        assert(b =~= p + (mt + ("\", \"params\": "@ + pt + "}"@)));
        assert(b[11] == p[11]);
        assert(b[p.len() as int + 3] == mt[3]);
    }
}

proof fn lemma_middle(pre: Seq<char>, mid: Seq<char>, post: Seq<char>)
    ensures
        (pre + mid + post).subrange(pre.len() as int, (pre.len() + mid.len()) as int) == mid,
{
    assert((pre + mid + post).subrange(pre.len() as int, (pre.len() + mid.len()) as int) =~= mid);
}

proof fn lemma_argument_read_back(m: RpcMethod, a: Seq<char>, b: Seq<char>)
    requires
        m == RpcMethod::GetRawTransaction || m == RpcMethod::GetBlock,
        body_text(m, a) == body_text(m, b),
    ensures
        a == b,
{
    let tail = if m == RpcMethod::GetRawTransaction { "\",1]"@ } else { "\",2]"@ };
    let pre = spaced_prefix() + method_text(m) + "\", \"params\": "@ + "[\""@;
    let post = tail + "}"@;
    assert(body_text(m, a) =~= pre + a + post);
    assert(body_text(m, b) =~= pre + b + post);
    assert(a.len() == b.len());
    lemma_middle(pre, a, post);
    lemma_middle(pre, b, post);
}

/// Two calls post the same body only when they are the same call: the body
/// names its method, and the transaction or block id can be read back from it.
pub proof fn request_body_identifies_call(a: RpcCall, b: RpcCall)
    requires
        body_text(a@.0, a@.1) == body_text(b@.0, b@.1),
    ensures
        a@ == b@,
{
    let (ma, xa) = a@;
    let (mb, xb) = b@;
    lemma_body_shape(ma, xa);
    lemma_body_shape(mb, xb);
    reveal_strlit("getinfo");
    reveal_strlit("getrawmempool");
    reveal_strlit("getblockchaininfo");
    reveal_strlit("getrawtransaction");
    reveal_strlit("getblock");
    reveal_strlit("getpeerinfo");
    if ma == mb {
        if ma == RpcMethod::GetRawTransaction || ma == RpcMethod::GetBlock {
            lemma_argument_read_back(ma, xa, xb);
        }
    } else {
        assert(is_compact(ma) == is_compact(mb));
        assert(method_text(ma)[3] == method_text(mb)[3]);
    }
}

/// Whether `f` is one of the files that the answer to `n` is kept in.
pub open spec fn keeps_answer_in(n: RpcMethod, f: Seq<char>) -> bool {
    saved_files(n) matches Some((raw, result, _filter)) && (raw == f || result == f)
}

/// The files removed at exit are exactly the files that the answers are kept
/// in: every raw answer and every extracted result of every method, and
/// nothing else.
pub proof fn cleanup_covers_saved_files(m: RpcMethod)
    ensures
        saved_files(m) matches Some((raw, result, _filter)) ==> scratch_file_texts().contains(raw)
            && scratch_file_texts().contains(result),
        forall|i: int|
            0 <= i < scratch_file_texts().len() ==> exists|n: RpcMethod|
                keeps_answer_in(n, #[trigger] scratch_file_texts()[i]),
{
    let s = scratch_file_texts();
    assert(s[0] == "output.json"@);
    assert(s[1] == "new.json"@);
    assert(s[2] == "mempool_new.json"@);
    assert(s[3] == "mempool_output.json"@);
    assert(s[4] == "txid_new.json"@);
    assert(s[5] == "txid_output.json"@);
    assert(s[6] == "block_new.json"@);
    assert(s[7] == "block_output.json"@);
    assert(s[8] == "peer_output.json"@);
    assert(s[9] == "peer_new.json"@);
    assert forall|i: int| 0 <= i < s.len() implies exists|n: RpcMethod|
        keeps_answer_in(n, #[trigger] s[i]) by {
        if i == 0 || i == 1 {
            assert(keeps_answer_in(RpcMethod::GetBlockchainInfo, s[i]));
        } else if i == 2 || i == 3 {
            assert(keeps_answer_in(RpcMethod::GetRawMempool, s[i]));
        } else if i == 4 || i == 5 {
            assert(keeps_answer_in(RpcMethod::GetRawTransaction, s[i]));
        } else if i == 6 || i == 7 {
            assert(keeps_answer_in(RpcMethod::GetBlock, s[i]));
        } else {
            assert(keeps_answer_in(RpcMethod::GetPeerInfo, s[i]));
        }
    }
}

/// A report read as its parts: the quoted method, the status after
/// "Response", the byte count after "Received bytes", and the closing empty
/// line.
pub open spec fn report_parts(m: RpcMethod, status: Seq<char>, size: Seq<char>) -> Seq<char> {
    "Zebrad RPC    : \""@ + method_text(m) + "\"\nResponse      :  "@ + status
        + "\nReceived bytes:  "@ + size + " \n\n"@
}

/// The report shows the exchange as it happened: it names the method, and the
/// status and the number of bytes received appear as decimal numerals that
/// denote them.
pub proof fn report_shows_status_and_size(m: RpcMethod, code: u32, received: usize)
    ensures
        exists|status: Seq<char>, size: Seq<char>|
            report_text(m, code, received) == #[trigger] report_parts(m, status, size) && status.len()
                >= 1 && all_digits(status) && digits_value(status) == code as int && size.len() >= 1
                && all_digits(size) && digits_value(size) == received as int,
{
    let status = decimal_nat(code as nat);
    let size = decimal_nat(received as nat);
    decimal_is_faithful(code as nat);
    decimal_is_faithful(received as nat);
    assert(report_text(m, code, received) =~= report_parts(m, status, size));
}

/// Only the peer listing is narrowed to the peers' addresses: every other
/// method keeps the whole `result` of its answer. Each answer is kept under a
/// stem of its own, the raw answer in `<stem>output.json` and the extract in
/// `<stem>new.json`, and only the first request keeps nothing.
pub proof fn saved_files_law(m: RpcMethod)
    ensures
        saved_files(m) is None <==> m == RpcMethod::GetInfo,
        saved_files(m) matches Some((_raw, _result, filter)) ==> (m != RpcMethod::GetPeerInfo
            ==> filter == ".result"@) && (m == RpcMethod::GetPeerInfo ==> filter == ".result"@
            + ".[].addr"@),
        saved_files(m) matches Some((raw, result, _filter)) ==> exists|stem: Seq<char>|
            raw == #[trigger] (stem + "output.json"@) && result == stem + "new.json"@,
{
    reveal_strlit(".result");
    reveal_strlit(".[].addr");
    reveal_strlit(".result.[].addr");
    reveal_strlit("output.json");
    reveal_strlit("new.json");
    reveal_strlit("mempool_output.json");
    reveal_strlit("mempool_new.json");
    reveal_strlit("txid_output.json");
    reveal_strlit("txid_new.json");
    reveal_strlit("block_output.json");
    reveal_strlit("block_new.json");
    reveal_strlit("peer_output.json");
    reveal_strlit("peer_new.json");
    reveal_strlit("mempool_");
    reveal_strlit("txid_");
    reveal_strlit("block_");
    reveal_strlit("peer_");
    assert(".result.[].addr"@ =~= ".result"@ + ".[].addr"@);
    let stem: Seq<char> = match m {
        RpcMethod::GetRawMempool => "mempool_"@,
        RpcMethod::GetRawTransaction => "txid_"@,
        RpcMethod::GetBlock => "block_"@,
        RpcMethod::GetPeerInfo => "peer_"@,
        _ => Seq::empty(),
    };
    if let Some((raw, result, _filter)) = saved_files(m) {
        assert(raw =~= stem + "output.json"@);
        assert(result =~= stem + "new.json"@);
    }
}

/// The files an answer is kept in, and the `jq` filter between them.
pub struct SavedResponse {
    pub raw_file: &'static str,
    pub result_file: &'static str,
    pub jq_filter: &'static str,
}

/// The name of method `m`.
pub fn method_name(m: RpcMethod) -> (s: &'static str)
    ensures
        s@ == method_text(m),
{
    match m {
        RpcMethod::GetInfo => "getinfo",
        RpcMethod::GetRawMempool => "getrawmempool",
        RpcMethod::GetBlockchainInfo => "getblockchaininfo",
        RpcMethod::GetRawTransaction => "getrawtransaction",
        RpcMethod::GetBlock => "getblock",
        RpcMethod::GetPeerInfo => "getpeerinfo",
    }
}

fn params_of(call: &RpcCall) -> (s: String)
    ensures
        s@ == params_text(call@.0, call@.1),
{
    match call {
        RpcCall::GetRawMempool => String::from_str("[true]"),
        RpcCall::GetRawTransaction(txid) => {
            let mut s = String::from_str("[\"");
            s.append(txid.as_str());
            s.append("\",1]");
            s
        },
        RpcCall::GetBlock(block) => {
            let mut s = String::from_str("[\"");
            s.append(block.as_str());
            s.append("\",2]");
            s
        },
        _ => String::from_str("[]"),
    }
}

impl RpcCall {
    /// The method of this call.
    pub fn method(&self) -> (m: RpcMethod)
        ensures
            m == self@.0,
    {
        match self {
            RpcCall::GetInfo => RpcMethod::GetInfo,
            RpcCall::GetRawMempool => RpcMethod::GetRawMempool,
            RpcCall::GetBlockchainInfo => RpcMethod::GetBlockchainInfo,
            RpcCall::GetRawTransaction(_) => RpcMethod::GetRawTransaction,
            RpcCall::GetBlock(_) => RpcMethod::GetBlock,
            RpcCall::GetPeerInfo => RpcMethod::GetPeerInfo,
        }
    }

    /// The JSON-RPC body posted for this call.
    pub fn request_body(&self) -> (body: String)
        ensures
            body@ == body_text(self@.0, self@.1),
    {
        let m = self.method();
        let params = params_of(self);
        let mut body = if m == RpcMethod::GetRawMempool || m == RpcMethod::GetBlockchainInfo {
            String::from_str("{\"jsonrpc\":\"1.0\", \"id\": \"curltest\", \"method\":\"")
        } else {
            String::from_str("{\"jsonrpc\": \"1.0\", \"id\":\"curltest\", \"method\": \"")
        };
        body.append(method_name(m));
        if m == RpcMethod::GetRawMempool || m == RpcMethod::GetBlockchainInfo {
            body.append("\",\"params\":");
        } else {
            body.append("\", \"params\": ");
        }
        body.append(params.as_str());
        body.append("}");
        body
    }

    /// The line echoed before a block is requested; no other call echoes one.
    pub fn request_echo(&self) -> (line: Option<String>)
        ensures
            match line {
                Some(l) => self@.0 == RpcMethod::GetBlock && l@ == "in function: "@ + body_text(
                    self@.0,
                    self@.1,
                ),
                None => self@.0 != RpcMethod::GetBlock,
            },
    {
        match self {
            RpcCall::GetBlock(_) => {
                let mut line = String::from_str("in function: ");
                let body = self.request_body();
                line.append(body.as_str());
                Some(line)
            },
            _ => None,
        }
    }
}

/// Where the answer to `m` is kept, if anywhere.
pub fn saved_response(m: RpcMethod) -> (r: Option<SavedResponse>)
    ensures
        match r {
            Some(f) => saved_files(m) == Some((f.raw_file@, f.result_file@, f.jq_filter@)),
            None => saved_files(m) is None,
        },
{
    match m {
        RpcMethod::GetInfo => None,
        RpcMethod::GetRawMempool => Some(
            SavedResponse {
                raw_file: "mempool_output.json",
                result_file: "mempool_new.json",
                jq_filter: ".result",
            },
        ),
        RpcMethod::GetBlockchainInfo => Some(
            SavedResponse { raw_file: "output.json", result_file: "new.json", jq_filter: ".result" },
        ),
        RpcMethod::GetRawTransaction => Some(
            SavedResponse {
                raw_file: "txid_output.json",
                result_file: "txid_new.json",
                jq_filter: ".result",
            },
        ),
        RpcMethod::GetBlock => Some(
            SavedResponse {
                raw_file: "block_output.json",
                result_file: "block_new.json",
                jq_filter: ".result",
            },
        ),
        RpcMethod::GetPeerInfo => Some(
            SavedResponse {
                raw_file: "peer_output.json",
                result_file: "peer_new.json",
                jq_filter: ".result.[].addr",
            },
        ),
    }
}

/// The report printed after an exchange for `m` that got status `code` and
/// `received` bytes.
pub fn rpc_report(m: RpcMethod, code: u32, received: usize) -> (s: String)
    ensures
        s@ == report_text(m, code, received),
{
    let mut s = String::from_str("Zebrad RPC    : \"");
    s.append(method_name(m));
    s.append("\"\nResponse      :  ");
    let code_text = format_u64(code as u64);
    s.append(code_text.as_str());
    s.append("\nReceived bytes:  ");
    let received_text = format_u64(received as u64);
    s.append(received_text.as_str());
    s.append(" \n\n");
    s
}

/// The files that the program may leave behind, removed at exit.
pub fn scratch_files() -> (files: Vec<&'static str>)
    ensures
        files@.len() == scratch_file_texts().len(),
        forall|i: int| 0 <= i < files@.len() ==> #[trigger] files@[i]@ == scratch_file_texts()[i],
{
    let files = vec![
        "output.json",
        "new.json",
        "mempool_new.json",
        "mempool_output.json",
        "txid_new.json",
        "txid_output.json",
        "block_new.json",
        "block_output.json",
        "peer_output.json",
        "peer_new.json",
    ];
    files
}

} // verus!
