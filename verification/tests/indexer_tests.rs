use cw20_factory::cw20_factory::msgs::{SupplyDetailsResponse, TokenInfoResponse};
use cw20_factory::cw20_indexer::error::Cw20IndexerError;
use cw20_factory::cw20_indexer::msgs::{
    ExecuteMsg, InstantiateMsg, MigrateMsg, QueryMsg, RegisterDenomMsg, StorageOrder, TokenDetails,
};
use cw20_factory::host::{MessageInfo, Response};
use cw20_factory::indexer::contract::{
    check_registration, execute, instantiate, migrate, query, CallerProbe,
};
use cw20_factory::indexer::function::validate_denom;
use cw20_factory::indexer::query::{qy_token_info, qy_tokens_info, token_owner};
use cw20_factory::indexer::state::{Registry, RegistryEntry};
use cw20_factory::text::{chars_of, position, split, Position};

fn conformant() -> CallerProbe {
    CallerProbe {
        token_info: Ok(TokenInfoResponse {
            name: "Token Foo".to_string(),
            symbol: "FOO".to_string(),
            decimals: 6,
            total_supply: 0,
        }),
        factory_denom: Ok("factory/X/foo".to_string()),
    }
}

fn register(
    registry: &mut Registry,
    sender: &str,
    denom: &str,
    probe: CallerProbe,
) -> Result<Response, Cw20IndexerError> {
    execute(
        registry,
        MessageInfo { sender: sender.to_string(), funds: vec![] },
        ExecuteMsg::RegisterDenom(RegisterDenomMsg { denom: denom.to_string() }),
        probe,
    )
}

fn entry(denom: &str, cw20_addr: &str) -> RegistryEntry {
    RegistryEntry { denom: denom.to_string(), cw20_addr: cw20_addr.to_string() }
}

fn filled(keys: &[&str]) -> Registry {
    let mut registry = Registry::new();
    for key in keys {
        registry.save(key.to_string(), format!("addr_{}", key)).unwrap();
    }
    registry
}

fn denoms(entries: &[RegistryEntry]) -> Vec<String> {
    entries.iter().map(|e| e.denom.clone()).collect()
}

#[test]
fn validate_denom_accepts_a_factory_denom_of_the_sender() {
    assert_eq!(validate_denom("factory/X/foo", "X"), Ok(()));
    assert_eq!(validate_denom("factory/osmo1abc/", "osmo1abc"), Ok(()));
    assert_eq!(validate_denom("factory//x", ""), Ok(()));
}

#[test]
fn validate_denom_counts_three_segments() {
    let malformed =
        |d: &str| Err(Cw20IndexerError::MalformedIdentifier { denom: d.to_string() });
    assert_eq!(validate_denom("bad-format", "X"), malformed("bad-format"));
    assert_eq!(validate_denom("", "X"), malformed(""));
    assert_eq!(validate_denom("factory/X", "X"), malformed("factory/X"));
    assert_eq!(validate_denom("factory/X/foo/bar", "X"), malformed("factory/X/foo/bar"));
    assert_eq!(validate_denom("factory/X/foo/", "X"), malformed("factory/X/foo/"));
    assert_eq!(validate_denom("/factory/X/foo", "X"), malformed("/factory/X/foo"));
}

#[test]
fn validate_denom_compares_scheme_and_issuer() {
    let mismatch = |d: &str| Err(Cw20IndexerError::IdentityMismatch { denom: d.to_string() });
    assert_eq!(validate_denom("factory/Y/foo", "X"), mismatch("factory/Y/foo"));
    assert_eq!(validate_denom("Factory/X/foo", "X"), mismatch("Factory/X/foo"));
    assert_eq!(validate_denom("ibc/X/foo", "X"), mismatch("ibc/X/foo"));
    assert_eq!(validate_denom("factory/Xx/foo", "X"), mismatch("factory/Xx/foo"));
    assert_eq!(validate_denom("//", "X"), mismatch("//"));
}

#[test]
fn registry_dedup_and_self_attestation() {
    let (mut registry, _) = instantiate(InstantiateMsg {});
    register(&mut registry, "X", "factory/X/foo", conformant()).unwrap();
    assert_eq!(registry.load("factory/X/foo"), Ok("X".to_string()));
    assert_eq!(registry.len(), 1);

    let before = registry.clone();
    assert_eq!(
        register(&mut registry, "X", "factory/X/foo", conformant()),
        Err(Cw20IndexerError::AlreadyRegistered { denom: "factory/X/foo".to_string() })
    );
    assert_eq!(
        register(&mut registry, "Y", "factory/X/foo", conformant()),
        Err(Cw20IndexerError::AlreadyRegistered { denom: "factory/X/foo".to_string() })
    );
    let mut silent = conformant();
    silent.token_info = Err("no token info".to_string());
    assert_eq!(
        register(&mut registry, "Y", "factory/X/foo", silent),
        Err(Cw20IndexerError::AlreadyRegistered { denom: "factory/X/foo".to_string() })
    );
    assert_eq!(registry.load("factory/X/foo"), Ok("X".to_string()));
    assert_eq!(
        register(&mut registry, "X", "factory/Y/foo", conformant()),
        Err(Cw20IndexerError::IdentityMismatch { denom: "factory/Y/foo".to_string() })
    );
    assert_eq!(
        register(&mut registry, "X", "bad-format", conformant()),
        Err(Cw20IndexerError::MalformedIdentifier { denom: "bad-format".to_string() })
    );
    assert_eq!(registry, before);
}

#[test]
fn an_entry_is_refused_before_its_form_is_looked_at() {
    let mut registry = Registry::new();
    registry.save("bad-format".to_string(), "X".to_string()).unwrap();
    assert_eq!(
        register(&mut registry, "X", "bad-format", conformant()),
        Err(Cw20IndexerError::AlreadyRegistered { denom: "bad-format".to_string() })
    );
    assert_eq!(
        register(&mut registry, "X", "other-format", conformant()),
        Err(Cw20IndexerError::MalformedIdentifier { denom: "other-format".to_string() })
    );
    assert_eq!(registry.len(), 1);
}

#[test]
fn check_registration_decides_before_the_caller_is_asked() {
    let mut registry = Registry::new();
    assert_eq!(check_registration(&registry, "X", "factory/X/foo"), Ok(()));
    assert_eq!(
        check_registration(&registry, "Y", "factory/X/foo"),
        Err(Cw20IndexerError::IdentityMismatch { denom: "factory/X/foo".to_string() })
    );
    assert_eq!(
        check_registration(&registry, "X", "bad-format"),
        Err(Cw20IndexerError::MalformedIdentifier { denom: "bad-format".to_string() })
    );
    registry.save("factory/X/foo".to_string(), "X".to_string()).unwrap();
    for caller in ["X", "Y", ""] {
        assert_eq!(
            check_registration(&registry, caller, "factory/X/foo"),
            Err(Cw20IndexerError::AlreadyRegistered { denom: "factory/X/foo".to_string() })
        );
    }
}

#[test]
fn registration_wants_a_caller_that_answers_both_queries() {
    let mut registry = Registry::new();
    let mut probe = conformant();
    probe.token_info = Err("no token info".to_string());
    assert_eq!(
        register(&mut registry, "X", "factory/X/foo", probe),
        Err(Cw20IndexerError::Std("no token info".to_string()))
    );
    let mut probe = conformant();
    probe.factory_denom = Err("no denom".to_string());
    assert_eq!(
        register(&mut registry, "X", "factory/X/foo", probe),
        Err(Cw20IndexerError::Std("no denom".to_string()))
    );
    let mut probe = conformant();
    probe.factory_denom = Err("no denom".to_string());
    assert_eq!(
        register(&mut registry, "X", "bad-format", probe),
        Err(Cw20IndexerError::MalformedIdentifier { denom: "bad-format".to_string() })
    );
    assert_eq!(registry.len(), 0);
}

#[test]
fn lookup_of_an_unknown_denom_is_not_found() {
    let registry = filled(&["b"]);
    assert_eq!(registry.load("a"), Err(Cw20IndexerError::NotFound { denom: "a".to_string() }));
    assert!(registry.has("b"));
    assert!(!registry.has("a"));
    assert!(!registry.has(""));
}

#[test]
fn save_never_replaces_an_entry() {
    let mut registry = Registry::new();
    registry.save("k".to_string(), "first".to_string()).unwrap();
    assert_eq!(
        registry.save("k".to_string(), "second".to_string()),
        Err(Cw20IndexerError::AlreadyRegistered { denom: "k".to_string() })
    );
    assert_eq!(registry.load("k"), Ok("first".to_string()));
}

#[test]
fn listing_goes_up_or_down_by_denom() {
    let registry = filled(&["m", "a", "z", "c", "ab", "b"]);
    let up = registry.range(StorageOrder::Ascending, None, None);
    assert_eq!(denoms(&up), ["a", "ab", "b", "c", "m", "z"]);
    assert_eq!(up[1], entry("ab", "addr_ab"));
    let down = registry.range(StorageOrder::Descending, None, None);
    assert_eq!(denoms(&down), ["z", "m", "c", "b", "ab", "a"]);
}

#[test]
fn listing_starts_after_the_cursor() {
    let registry = filled(&["a", "b", "c", "d", "e"]);
    let up = registry.range(StorageOrder::Ascending, None, Some("b".to_string()));
    assert_eq!(denoms(&up), ["c", "d", "e"]);
    let up = registry.range(StorageOrder::Ascending, None, Some("bb".to_string()));
    assert_eq!(denoms(&up), ["c", "d", "e"]);
    let up = registry.range(StorageOrder::Ascending, None, Some("e".to_string()));
    assert_eq!(denoms(&up), Vec::<String>::new());
    let up = registry.range(StorageOrder::Ascending, None, Some("".to_string()));
    assert_eq!(denoms(&up), ["a", "b", "c", "d", "e"]);
    let down = registry.range(StorageOrder::Descending, None, Some("d".to_string()));
    assert_eq!(denoms(&down), ["c", "b", "a"]);
    let down = registry.range(StorageOrder::Descending, None, Some("cc".to_string()));
    assert_eq!(denoms(&down), ["c", "b", "a"]);
    let down = registry.range(StorageOrder::Descending, None, Some("a".to_string()));
    assert_eq!(denoms(&down), Vec::<String>::new());
    let down = registry.range(StorageOrder::Descending, None, Some("zz".to_string()));
    assert_eq!(denoms(&down), ["e", "d", "c", "b", "a"]);
}

#[test]
fn listing_is_bounded_by_the_limit() {
    let keys: Vec<String> = (0..40).map(|i| format!("k{:02}", i)).collect();
    let refs: Vec<&str> = keys.iter().map(|k| k.as_str()).collect();
    let registry = filled(&refs);
    assert_eq!(registry.len(), 40);
    let page = registry.range(StorageOrder::Ascending, None, None);
    assert_eq!(denoms(&page), keys[..10]);
    let page = registry.range(StorageOrder::Ascending, Some(3), None);
    assert_eq!(denoms(&page), keys[..3]);
    let page = registry.range(StorageOrder::Ascending, Some(0), None);
    assert_eq!(page.len(), 0);
    let page = registry.range(StorageOrder::Ascending, Some(30), None);
    assert_eq!(denoms(&page), keys[..30]);
    let page = registry.range(StorageOrder::Ascending, Some(1000), None);
    assert_eq!(denoms(&page), keys[..30]);
    let page = registry.range(StorageOrder::Ascending, Some(30), Some("k19".to_string()));
    assert_eq!(denoms(&page), keys[20..]);
    let page = registry.range(StorageOrder::Descending, Some(2), Some("k19".to_string()));
    assert_eq!(denoms(&page), ["k18", "k17"]);
    let page = registry.range(StorageOrder::Descending, Some(u32::MAX), None);
    assert_eq!(page.len(), 30);
    assert_eq!(page[0].denom, "k39");
    assert_eq!(page[29].denom, "k10");
}

#[test]
fn listing_can_be_resumed_page_by_page() {
    let registry = filled(&["e", "d", "c", "b", "a", "g", "f"]);
    let mut seen: Vec<String> = vec![];
    let mut cursor: Option<String> = None;
    loop {
        let page = registry.range(StorageOrder::Ascending, Some(3), cursor.clone());
        if page.is_empty() {
            break;
        }
        cursor = Some(page[page.len() - 1].denom.clone());
        seen.extend(denoms(&page));
    }
    assert_eq!(seen, ["a", "b", "c", "d", "e", "f", "g"]);
}

#[test]
fn tokens_info_lists_downwards_by_default() {
    let registry = filled(&["a", "b", "c"]);
    assert_eq!(denoms(&qy_tokens_info(&registry, None, None, None)), ["c", "b", "a"]);
    assert_eq!(
        denoms(&qy_tokens_info(&registry, None, Some(2), Some(StorageOrder::Ascending))),
        ["a", "b"]
    );
    assert_eq!(
        denoms(&qy_tokens_info(&registry, Some("c".to_string()), None, None)),
        ["b", "a"]
    );
}

#[test]
fn query_selects_one_entry_or_a_page() {
    let registry = filled(&["a", "b", "c"]);
    assert_eq!(
        query(&registry, QueryMsg::TokenInfo { denom: "b".to_string() }),
        Ok(vec![entry("b", "addr_b")])
    );
    assert_eq!(
        query(&registry, QueryMsg::TokenInfo { denom: "x".to_string() }),
        Err(Cw20IndexerError::NotFound { denom: "x".to_string() })
    );
    assert_eq!(
        query(
            &registry,
            QueryMsg::TokensInfo {
                start_after: Some("a".to_string()),
                limit: Some(1),
                order: Some(StorageOrder::Ascending)
            }
        ),
        Ok(vec![entry("b", "addr_b")])
    );
}

#[test]
fn token_owner_prefers_the_given_contract() {
    let registry = filled(&["a"]);
    assert_eq!(token_owner(&registry, "a", Some("given".to_string())), Ok("given".to_string()));
    assert_eq!(token_owner(&registry, "a", None), Ok("addr_a".to_string()));
    assert_eq!(
        token_owner(&registry, "b", None),
        Err(Cw20IndexerError::NotFound { denom: "b".to_string() })
    );
}

#[test]
fn token_details_join_entry_metadata_and_supply() {
    let details = qy_token_info(
        "factory/X/foo".to_string(),
        "X".to_string(),
        TokenInfoResponse {
            name: "Token Foo".to_string(),
            symbol: "FOO".to_string(),
            decimals: 6,
            total_supply: 100,
        },
        SupplyDetailsResponse { cw20_supply: 75, native_supply: 25, total_supply: 100 },
    );
    assert_eq!(
        details,
        TokenDetails {
            cw20_addr: "X".to_string(),
            native_denom: "factory/X/foo".to_string(),
            name: "Token Foo".to_string(),
            symbol: "FOO".to_string(),
            decimals: 6,
            total_supply: 100,
            cw20_supply: 75,
            native_supply: 25,
        }
    );
}

#[test]
fn instantiate_and_migrate_answer_with_an_empty_response() {
    let (registry, response) = instantiate(InstantiateMsg {});
    assert_eq!(registry.len(), 0);
    assert_eq!(response, Response::new());
    assert_eq!(migrate(MigrateMsg {}), Response::new());
}

#[test]
fn indexer_error_messages_read_as_the_contract_words_them() {
    assert_eq!(
        Cw20IndexerError::MalformedIdentifier { denom: "x".to_string() }.message(),
        "Invalid denom lenght: denom x is not format factory/contract/subdenom"
    );
    assert_eq!(
        Cw20IndexerError::IdentityMismatch { denom: "x".to_string() }.message(),
        "Invalid denom data: denom x is not format factory/contract/subdenom"
    );
    assert_eq!(
        Cw20IndexerError::AlreadyRegistered { denom: "x".to_string() }.message(),
        "Denom already saved: x"
    );
    assert_eq!(
        Cw20IndexerError::NotFound { denom: "x".to_string() }.message(),
        "Unable to load key x on Map with namespace cw20_map"
    );
    assert_eq!(Cw20IndexerError::Std("boom".to_string()).message(), "boom");
}

#[test]
fn split_keeps_empty_segments() {
    let parts = |s: &str| -> Vec<String> {
        split(&chars_of(s), '/').into_iter().map(|p| p.into_iter().collect()).collect()
    };
    assert_eq!(parts(""), [""]);
    assert_eq!(parts("abc"), ["abc"]);
    assert_eq!(parts("a/b"), ["a", "b"]);
    assert_eq!(parts("/"), ["", ""]);
    assert_eq!(parts("a//b/"), ["a", "", "b", ""]);
    for s in ["", "x", "factory/X/foo", "//", "a/b/c/d", "é/ü"] {
        let expected: Vec<String> = s.split('/').map(|p| p.to_string()).collect();
        assert_eq!(parts(s), expected);
    }
}

#[test]
fn position_orders_texts_as_their_bytes_are_ordered() {
    let pos = |a: &str, b: &str| position(&chars_of(a), &chars_of(b));
    assert_eq!(pos("a", "b"), Position::Before);
    assert_eq!(pos("b", "a"), Position::After);
    assert_eq!(pos("a", "a"), Position::Same);
    assert_eq!(pos("", ""), Position::Same);
    assert_eq!(pos("", "a"), Position::Before);
    assert_eq!(pos("a", "ab"), Position::Before);
    assert_eq!(pos("ab", "a"), Position::After);
    assert_eq!(pos("Z", "a"), Position::Before);
    let words = ["", "a", "ab", "b", "Z", "é", "z", "日本", "\u{10348}", "zz", "~"];
    for a in words {
        for b in words {
            let expected = match a.as_bytes().cmp(b.as_bytes()) {
                std::cmp::Ordering::Less => Position::Before,
                std::cmp::Ordering::Equal => Position::Same,
                std::cmp::Ordering::Greater => Position::After,
            };
            assert_eq!(pos(a, b), expected);
        }
    }
}

#[test]
fn chars_of_lists_the_characters() {
    assert_eq!(chars_of(""), Vec::<char>::new());
    assert_eq!(chars_of("aé/"), vec!['a', 'é', '/']);
}
