//! The main menu: its items, what choosing each one does, and the request
//! that a choice sends.

use vstd::prelude::*;
use crate::rpc::{RpcCall, RpcMethod};
use crate::text::{is_white_space, trim_law, trimmed, trim_input};

verus! {

/// What the user picked in the main menu.
#[derive(Clone, Copy, PartialEq, Eq, Structural, Debug)]
pub enum MenuChoice {
    DisplayMnemonic,
    VisualizeMempool,
    BlockchainDetail,
    SupplyInfo,
    TransactionDetail,
    BlockDetail,
    PeerDetails,
    Exit,
    /// A position outside the menu: nothing is done and the program ends.
    Nothing,
}

/// The prompt above the menu.
pub open spec fn menu_title_text() -> Seq<char> {
    "\nRusty-Zechub"@
}

/// The menu's items, in the order they are shown.
pub open spec fn menu_labels() -> Seq<Seq<char>> {
    seq![
        "Display Mnemonic "@,
        "Visualize Mempool"@,
        "Blockchain Detail"@,
        "Extract Supply Info"@,
        "Transaction Detail"@,
        "Block Detail"@,
        "Peer Details"@,
        "Exit"@,
    ]
}

/// The choice made by selecting position `index` of the menu.
pub open spec fn choice_at(index: int) -> MenuChoice {
    if index == 0 {
        MenuChoice::DisplayMnemonic
    } else if index == 1 {
        MenuChoice::VisualizeMempool
    } else if index == 2 {
        MenuChoice::BlockchainDetail
    } else if index == 3 {
        MenuChoice::SupplyInfo
    } else if index == 4 {
        MenuChoice::TransactionDetail
    } else if index == 5 {
        MenuChoice::BlockDetail
    } else if index == 6 {
        MenuChoice::PeerDetails
    } else if index == 7 {
        MenuChoice::Exit
    } else {
        MenuChoice::Nothing
    }
}

/// The prompt for the text a choice needs, if it needs any.
pub open spec fn prompt_text(c: MenuChoice) -> Option<Seq<char>> {
    match c {
        MenuChoice::TransactionDetail => Some("Enter your txid:\n"@),
        MenuChoice::BlockDetail => Some("Enter your block:\n"@),
        _ => None,
    }
}

/// The request a choice sends, given the text typed at its prompt (which is
/// trimmed before use).
pub open spec fn call_for(c: MenuChoice, input: Seq<char>) -> Option<(RpcMethod, Seq<char>)> {
    match c {
        MenuChoice::VisualizeMempool => Some((RpcMethod::GetRawMempool, Seq::empty())),
        MenuChoice::BlockchainDetail => Some((RpcMethod::GetBlockchainInfo, Seq::empty())),
        MenuChoice::SupplyInfo => Some((RpcMethod::GetBlockchainInfo, Seq::empty())),
        MenuChoice::TransactionDetail => Some((RpcMethod::GetRawTransaction, trimmed(input))),
        MenuChoice::BlockDetail => Some((RpcMethod::GetBlock, trimmed(input))),
        MenuChoice::PeerDetails => Some((RpcMethod::GetPeerInfo, Seq::empty())),
        _ => None,
    }
}

/// What the program does for one choice, apart from the request it sends.
pub struct MenuPlan {
    /// The terminal is cleared first.
    pub clear_screen: bool,
    /// A fresh mnemonic phrase is shown.
    pub show_mnemonic: bool,
    /// The part of the answer that `jq` extracts is printed.
    pub print_result: bool,
    /// The supply figures are read from the saved answer and printed.
    pub report_supply: bool,
    /// The number of peers is counted in the saved answer and printed.
    pub count_peers: bool,
    /// The scratch files are removed and the process exits with this status.
    pub exit_status: Option<i32>,
    /// The menu is shown again afterwards.
    pub back_to_menu: bool,
}

/// The choice made by selecting position `index` of the menu.
pub fn menu_choice(index: usize) -> (c: MenuChoice)
    ensures
        c == choice_at(index as int),
{
    if index == 0 {
        MenuChoice::DisplayMnemonic
    } else if index == 1 {
        MenuChoice::VisualizeMempool
    } else if index == 2 {
        MenuChoice::BlockchainDetail
    } else if index == 3 {
        MenuChoice::SupplyInfo
    } else if index == 4 {
        MenuChoice::TransactionDetail
    } else if index == 5 {
        MenuChoice::BlockDetail
    } else if index == 6 {
        MenuChoice::PeerDetails
    } else if index == 7 {
        MenuChoice::Exit
    } else {
        MenuChoice::Nothing
    }
}

/// The prompt above the menu.
pub fn menu_title() -> (s: &'static str)
    ensures
        s@ == menu_title_text(),
{
    "\nRusty-Zechub"
}

/// The position the menu's cursor starts on: the first item.
pub fn menu_default() -> (index: usize)
    ensures
        index == 0,
        choice_at(index as int) == MenuChoice::DisplayMnemonic,
{
    0
}

/// The menu's items, in the order they are shown.
pub fn menu_items() -> (items: Vec<&'static str>)
    ensures
        items@.len() == menu_labels().len(),
        forall|i: int| 0 <= i < items@.len() ==> #[trigger] items@[i]@ == menu_labels()[i],
{
    let items = vec![
        "Display Mnemonic ",
        "Visualize Mempool",
        "Blockchain Detail",
        "Extract Supply Info",
        "Transaction Detail",
        "Block Detail",
        "Peer Details",
        "Exit",
    ];
    items
}

/// The prompt for the text a choice needs, if it needs any.
pub fn input_prompt(c: MenuChoice) -> (p: Option<&'static str>)
    ensures
        match p {
            Some(s) => prompt_text(c) == Some(s@),
            None => prompt_text(c) is None,
        },
{
    match c {
        MenuChoice::TransactionDetail => Some("Enter your txid:\n"),
        MenuChoice::BlockDetail => Some("Enter your block:\n"),
        _ => None,
    }
}

/// The request a choice sends; `input` is the line typed at its prompt.
pub fn rpc_call_for(c: MenuChoice, input: &str) -> (call: Option<RpcCall>)
    ensures
        match call {
            Some(r) => call_for(c, input@) == Some(r@),
            None => call_for(c, input@) is None,
        },
{
    match c {
        MenuChoice::VisualizeMempool => Some(RpcCall::GetRawMempool),
        MenuChoice::BlockchainDetail => Some(RpcCall::GetBlockchainInfo),
        MenuChoice::SupplyInfo => Some(RpcCall::GetBlockchainInfo),
        MenuChoice::TransactionDetail => Some(RpcCall::GetRawTransaction(trim_input(input))),
        MenuChoice::BlockDetail => Some(RpcCall::GetBlock(trim_input(input))),
        MenuChoice::PeerDetails => Some(RpcCall::GetPeerInfo),
        _ => None,
    }
}

/// What the program does for choice `c`.
pub fn plan(c: MenuChoice) -> (p: MenuPlan)
    ensures
        p.clear_screen == (c != MenuChoice::Nothing),
        p.show_mnemonic == (c == MenuChoice::DisplayMnemonic),
        p.print_result == (c == MenuChoice::VisualizeMempool || c == MenuChoice::BlockchainDetail
            || c == MenuChoice::TransactionDetail || c == MenuChoice::BlockDetail || c
            == MenuChoice::PeerDetails),
        p.report_supply == (c == MenuChoice::SupplyInfo),
        p.count_peers == (c == MenuChoice::PeerDetails),
        p.exit_status == (if c == MenuChoice::Exit { Some(1i32) } else { None }),
        p.back_to_menu == (c != MenuChoice::Exit && c != MenuChoice::Nothing),
        forall|input: Seq<char>|
            (p.print_result || p.report_supply) <==> #[trigger] call_for(c, input) is Some,
        forall|input: Seq<char>|
            p.report_supply ==> #[trigger] call_for(c, input) == Some(
                (RpcMethod::GetBlockchainInfo, Seq::<char>::empty()),
            ),
        forall|input: Seq<char>|
            p.count_peers ==> #[trigger] call_for(c, input) == Some(
                (RpcMethod::GetPeerInfo, Seq::<char>::empty()),
            ),
        p.show_mnemonic ==> !p.print_result && !p.report_supply,
        p.exit_status is Some ==> !p.back_to_menu,
{
    let is_exit = c == MenuChoice::Exit;
    let is_nothing = c == MenuChoice::Nothing;
    MenuPlan {
        clear_screen: !is_nothing,
        show_mnemonic: c == MenuChoice::DisplayMnemonic,
        print_result: c == MenuChoice::VisualizeMempool || c == MenuChoice::BlockchainDetail || c
            == MenuChoice::TransactionDetail || c == MenuChoice::BlockDetail || c
            == MenuChoice::PeerDetails,
        report_supply: c == MenuChoice::SupplyInfo,
        count_peers: c == MenuChoice::PeerDetails,
        exit_status: if is_exit { Some(1i32) } else { None },
        back_to_menu: !is_exit && !is_nothing,
    }
}

/// The name each action goes by in the menu.
pub open spec fn label_of(c: MenuChoice) -> Seq<char> {
    match c {
        MenuChoice::DisplayMnemonic => "Display Mnemonic "@,
        MenuChoice::VisualizeMempool => "Visualize Mempool"@,
        MenuChoice::BlockchainDetail => "Blockchain Detail"@,
        MenuChoice::SupplyInfo => "Extract Supply Info"@,
        MenuChoice::TransactionDetail => "Transaction Detail"@,
        MenuChoice::BlockDetail => "Block Detail"@,
        MenuChoice::PeerDetails => "Peer Details"@,
        MenuChoice::Exit => "Exit"@,
        MenuChoice::Nothing => Seq::empty(),
    }
}

/// Selecting an item performs the action the item names: the choice made at
/// every position of the menu is the one that goes by the label shown there.
/// So "Transaction Detail" asks for a txid and requests that transaction, and
/// "Block Detail" asks for a block and requests that block.
pub proof fn menu_positions_follow_labels()
    ensures
        forall|i: int|
            0 <= i < menu_labels().len() ==> label_of(#[trigger] choice_at(i)) == menu_labels()[i],
        forall|i: int, input: Seq<char>|
            0 <= i < menu_labels().len() && menu_labels()[i] == "Transaction Detail"@ ==> {
                &&& prompt_text(choice_at(i)) == Some("Enter your txid:\n"@)
                &&& #[trigger] call_for(choice_at(i), input) == Some(
                    (RpcMethod::GetRawTransaction, trimmed(input)),
                )
            },
        forall|i: int, input: Seq<char>|
            0 <= i < menu_labels().len() && menu_labels()[i] == "Block Detail"@ ==> {
                &&& prompt_text(choice_at(i)) == Some("Enter your block:\n"@)
                &&& #[trigger] call_for(choice_at(i), input) == Some(
                    (RpcMethod::GetBlock, trimmed(input)),
                )
            },
{
    reveal_strlit("Display Mnemonic ");
    reveal_strlit("Visualize Mempool");
    reveal_strlit("Blockchain Detail");
    reveal_strlit("Extract Supply Info");
    reveal_strlit("Transaction Detail");
    reveal_strlit("Block Detail");
    reveal_strlit("Peer Details");
    reveal_strlit("Exit");
    let labels = menu_labels();
    assert forall|i: int| 0 <= i < labels.len() && labels[i] == "Transaction Detail"@ implies i
        == 4 by {
        if i != 4 {
            assert(labels[i].len() != 18 || labels[i][0] != 'T');
        }
    }
    assert forall|i: int| 0 <= i < labels.len() && labels[i] == "Block Detail"@ implies i
        == 5 by {
        if i != 5 {
            assert(labels[i].len() != 12 || labels[i][0] != 'B');
        }
    }
}

/// An id typed at a prompt is sent trimmed: the id of the request is one
/// contiguous piece of what was typed, only whitespace is dropped around it,
/// and it neither starts nor ends with whitespace. Exactly the choices that
/// prompt for text send it; the others send no argument.
pub proof fn typed_ids_are_trimmed(c: MenuChoice, input: Seq<char>)
    ensures
        prompt_text(c) is Some <==> (c == MenuChoice::TransactionDetail || c
            == MenuChoice::BlockDetail),
        call_for(c, input) matches Some((m, id)) ==> {
            if prompt_text(c) is Some {
                &&& (m == RpcMethod::GetRawTransaction || m == RpcMethod::GetBlock)
                &&& (id.len() > 0 ==> !is_white_space(id[0]) && !is_white_space(id.last()))
                &&& exists|i: int, j: int|
                    0 <= i <= j <= input.len() && id == #[trigger] input.subrange(i, j) && (forall|
                        k: int,
                    | 0 <= k < i ==> is_white_space(#[trigger] input[k])) && (forall|k: int|
                        j <= k < input.len() ==> is_white_space(#[trigger] input[k]))
            } else {
                id.len() == 0
            }
        },
{
    trim_law(input);
}

/// Every item of the menu leads to an action of its own, and only the
/// positions of the items do: selecting a position past the last item does
/// nothing.
pub proof fn menu_items_lead_to_distinct_actions()
    ensures
        forall|i: int|
            0 <= i < menu_labels().len() ==> #[trigger] choice_at(i) != MenuChoice::Nothing,
        forall|i: int, j: int|
            0 <= i < menu_labels().len() && 0 <= j < menu_labels().len() && i != j
                ==> #[trigger] choice_at(i) != #[trigger] choice_at(j),
        forall|i: int| (i < 0 || i >= menu_labels().len()) ==> #[trigger] choice_at(i) == MenuChoice::Nothing,
{
}

} // verus!
