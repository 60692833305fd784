use rusty_zechub::menu::{
    input_prompt, menu_choice, menu_default, menu_items, menu_title, plan, rpc_call_for, MenuChoice,
};
use rusty_zechub::report::{disk_size_line, display_mnemonic, mnemonic_line, peer_count_line};
use rusty_zechub::rpc::{method_name, rpc_report, saved_response, scratch_files, RpcCall, RpcMethod};

#[test]
fn getinfo_body() {
    assert_eq!(
        RpcCall::GetInfo.request_body(),
        "{\"jsonrpc\": \"1.0\", \"id\":\"curltest\", \"method\": \"getinfo\", \"params\": []}"
    );
}

#[test]
fn compact_bodies() {
    assert_eq!(
        RpcCall::GetRawMempool.request_body(),
        r#"{"jsonrpc":"1.0", "id": "curltest", "method":"getrawmempool","params":[true]}"#
    );
    assert_eq!(
        RpcCall::GetBlockchainInfo.request_body(),
        r#"{"jsonrpc":"1.0", "id": "curltest", "method":"getblockchaininfo","params":[]}"#
    );
}

#[test]
fn bodies_with_an_id() {
    assert_eq!(
        RpcCall::GetRawTransaction(String::from("abc123")).request_body(),
        "{\"jsonrpc\": \"1.0\", \"id\":\"curltest\", \"method\": \"getrawtransaction\", \"params\": [\"abc123\",1]}"
    );
    assert_eq!(
        RpcCall::GetBlock(String::from("2000000")).request_body(),
        "{\"jsonrpc\": \"1.0\", \"id\":\"curltest\", \"method\": \"getblock\", \"params\": [\"2000000\",2]}"
    );
    assert_eq!(
        RpcCall::GetPeerInfo.request_body(),
        "{\"jsonrpc\": \"1.0\", \"id\":\"curltest\", \"method\": \"getpeerinfo\", \"params\": []}"
    );
}

#[test]
fn distinct_calls_distinct_bodies() {
    let calls = [
        RpcCall::GetInfo,
        RpcCall::GetRawMempool,
        RpcCall::GetBlockchainInfo,
        RpcCall::GetRawTransaction(String::from("a")),
        RpcCall::GetRawTransaction(String::from("b")),
        RpcCall::GetBlock(String::from("a")),
        RpcCall::GetBlock(String::new()),
        RpcCall::GetPeerInfo,
    ];
    for (i, a) in calls.iter().enumerate() {
        for (j, b) in calls.iter().enumerate() {
            assert_eq!(i == j, a.request_body() == b.request_body(), "{} {}", i, j);
        }
    }
}

#[test]
fn only_getblock_echoes() {
    let block = RpcCall::GetBlock(String::from("7"));
    assert_eq!(
        block.request_echo(),
        Some(String::from(
            "in function: {\"jsonrpc\": \"1.0\", \"id\":\"curltest\", \"method\": \"getblock\", \"params\": [\"7\",2]}"
        ))
    );
    assert_eq!(RpcCall::GetRawTransaction(String::from("7")).request_echo(), None);
    assert_eq!(RpcCall::GetInfo.request_echo(), None);
}

#[test]
fn method_names() {
    assert_eq!(method_name(RpcMethod::GetRawMempool), "getrawmempool");
    assert_eq!(RpcCall::GetBlock(String::from("x")).method(), RpcMethod::GetBlock);
}

#[test]
fn report_lines() {
    assert_eq!(
        rpc_report(RpcMethod::GetRawMempool, 200, 1234),
        "Zebrad RPC    : \"getrawmempool\"\nResponse      :  200\nReceived bytes:  1234 \n\n"
    );
    assert_eq!(
        rpc_report(RpcMethod::GetPeerInfo, 0, 0),
        "Zebrad RPC    : \"getpeerinfo\"\nResponse      :  0\nReceived bytes:  0 \n\n"
    );
}

#[test]
fn saved_files_per_method() {
    assert!(saved_response(RpcMethod::GetInfo).is_none());
    let p = saved_response(RpcMethod::GetPeerInfo).unwrap();
    assert_eq!((p.raw_file, p.result_file, p.jq_filter), ("peer_output.json", "peer_new.json", ".result.[].addr"));
    let b = saved_response(RpcMethod::GetBlockchainInfo).unwrap();
    assert_eq!((b.raw_file, b.result_file, b.jq_filter), ("output.json", "new.json", ".result"));
}

#[test]
fn cleanup_removes_every_saved_file() {
    let files = scratch_files();
    assert_eq!(files.len(), 10);
    let methods = [
        RpcMethod::GetInfo,
        RpcMethod::GetRawMempool,
        RpcMethod::GetBlockchainInfo,
        RpcMethod::GetRawTransaction,
        RpcMethod::GetBlock,
        RpcMethod::GetPeerInfo,
    ];
    let mut kept = Vec::new();
    for m in methods {
        if let Some(s) = saved_response(m) {
            assert!(files.contains(&s.raw_file));
            assert!(files.contains(&s.result_file));
            kept.push(s.raw_file);
            kept.push(s.result_file);
        }
    }
    for f in &files {
        assert!(kept.contains(f));
    }
}

#[test]
fn menu_positions() {
    assert_eq!(menu_title(), "\nRusty-Zechub");
    let items = menu_items();
    assert_eq!(items.len(), 8);
    assert_eq!(items[0], "Display Mnemonic ");
    assert_eq!(items[7], "Exit");
    assert_eq!(menu_default(), 0);
    assert_eq!(menu_choice(menu_default()), MenuChoice::DisplayMnemonic);
    assert_eq!(menu_choice(0), MenuChoice::DisplayMnemonic);
    assert_eq!(menu_choice(3), MenuChoice::SupplyInfo);
    assert_eq!(menu_choice(7), MenuChoice::Exit);
    assert_eq!(menu_choice(8), MenuChoice::Nothing);
    for i in 0..8 {
        for j in 0..8 {
            assert_eq!(i == j, menu_choice(i) == menu_choice(j));
        }
    }
}

#[test]
fn prompts_and_calls() {
    assert_eq!(input_prompt(MenuChoice::TransactionDetail), Some("Enter your txid:\n"));
    assert_eq!(input_prompt(MenuChoice::BlockDetail), Some("Enter your block:\n"));
    assert_eq!(input_prompt(MenuChoice::PeerDetails), None);
    let call = rpc_call_for(MenuChoice::TransactionDetail, "  deadbeef \n").unwrap();
    assert_eq!(call.request_body(), RpcCall::GetRawTransaction(String::from("deadbeef")).request_body());
    let supply = rpc_call_for(MenuChoice::SupplyInfo, "").unwrap();
    assert_eq!(supply.method(), RpcMethod::GetBlockchainInfo);
    assert!(rpc_call_for(MenuChoice::DisplayMnemonic, "").is_none());
    assert!(rpc_call_for(MenuChoice::Exit, "").is_none());
    assert!(rpc_call_for(MenuChoice::Nothing, "").is_none());
}

#[test]
fn plans() {
    let exit = plan(MenuChoice::Exit);
    assert!(exit.clear_screen && !exit.back_to_menu);
    assert_eq!(exit.exit_status, Some(1));
    let nothing = plan(MenuChoice::Nothing);
    assert!(!nothing.clear_screen && !nothing.back_to_menu && nothing.exit_status.is_none());
    let supply = plan(MenuChoice::SupplyInfo);
    assert!(supply.report_supply && !supply.print_result && supply.back_to_menu);
    let peers = plan(MenuChoice::PeerDetails);
    assert!(peers.count_peers && peers.print_result);
    assert!(plan(MenuChoice::DisplayMnemonic).show_mnemonic);
}

#[test]
fn mnemonic_lines() {
    assert_eq!(mnemonic_line("abandon ability"), "Phrase: abandon ability\n");
    let line = display_mnemonic();
    let phrase = line.strip_prefix("Phrase: ").unwrap().strip_suffix('\n').unwrap();
    let words: Vec<&str> = phrase.split(' ').collect();
    assert_eq!(words.len(), 24);
    for w in words {
        assert!(!w.is_empty() && w.chars().all(|c| c.is_ascii_lowercase()));
    }
    assert!(bip0039::Mnemonic::<bip0039::English>::from_phrase(phrase).is_ok());
}

#[test]
fn peer_and_size_lines() {
    assert_eq!(peer_count_line("\"1.2.3.4:8233\"\n\"5.6.7.8:8233\"\n"), "Current peer count: 2\n");
    assert_eq!(peer_count_line(""), "Current peer count: 0\n");
    assert_eq!(disk_size_line(123456789), "Size of Zebra node on disk  | 123456789 bytes");
    assert_eq!(disk_size_line(-1), "Size of Zebra node on disk  | -1 bytes");
}
