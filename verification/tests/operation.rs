use pulsar_contracts::address::Address;
use pulsar_contracts::operation::{
    operation_bytes, operation_hash, Symbol, MAX_OPERATION_BYTES, MAX_SYMBOL_BYTES,
};

fn symbol(name: &str) -> Symbol {
    Symbol::new(name.as_bytes().to_vec()).unwrap()
}

#[test]
fn operation_bytes_of_a_contract_call() {
    let args = vec![vec![0u8, 0, 0, 3, 0, 0, 0, 5], vec![0u8, 0, 0, 1]];
    let got = operation_bytes(&Address::Contract([7u8; 32]), &symbol("set_fee"), &args);
    let mut want = vec![0u8, 0, 0, 18, 0, 0, 0, 1];
    want.extend_from_slice(&[7u8; 32]);
    want.extend_from_slice(&[0, 0, 0, 15, 0, 0, 0, 7]);
    want.extend_from_slice(b"set_fee\0");
    want.extend_from_slice(&[0, 0, 0, 3, 0, 0, 0, 5, 0, 0, 0, 1]);
    assert_eq!(got, want);
}

#[test]
fn operation_bytes_of_an_account_and_an_empty_name() {
    let got = operation_bytes(&Address::Account([3u8; 32]), &symbol(""), &vec![]);
    let mut want = vec![0u8, 0, 0, 18, 0, 0, 0, 0, 0, 0, 0, 0];
    want.extend_from_slice(&[3u8; 32]);
    want.extend_from_slice(&[0, 0, 0, 15, 0, 0, 0, 0]);
    assert_eq!(got, want);
}

#[test]
fn names_are_filled_up_to_multiples_of_four() {
    let target = Address::Contract([1u8; 32]);
    for name in ["a", "ab", "abc", "abcd", "abcdefghi", "abcdefghij"] {
        let bytes = operation_bytes(&target, &symbol(name), &vec![]);
        let filled: usize = (name.len() + 3) / 4 * 4;
        let mut want = vec![0u8, 0, 0, 15, 0, 0, 0, name.len() as u8];
        want.extend_from_slice(name.as_bytes());
        want.resize(8 + filled, 0);
        assert_eq!(bytes[40..].to_vec(), want);
    }
}

#[test]
fn symbols_are_short_and_of_letters_digits_and_underscores() {
    assert_eq!(MAX_SYMBOL_BYTES, 32);
    assert_eq!(symbol("azAZ09_").spelling(), &b"azAZ09_".to_vec());
    assert_eq!(symbol("transfer").copy(), symbol("transfer"));
    let longest = vec![b'x'; 32];
    let bytes = operation_bytes(
        &Address::Contract([0u8; 32]),
        &Symbol::new(longest.clone()).unwrap(),
        &vec![],
    );
    assert_eq!(bytes[40..48], [0, 0, 0, 15, 0, 0, 0, 32]);
    assert_eq!(bytes[48..].to_vec(), longest);
    assert!(Symbol::new(vec![b'x'; 33]).is_none());
    for wrong in ["a-b", "a b", "a/", "a:", "@", "[", "`", "{", "\u{e9}"] {
        assert!(Symbol::new(wrong.as_bytes().to_vec()).is_none());
    }
}

#[test]
fn hash_of_a_contract_call() {
    let args = vec![vec![0u8, 0, 0, 3, 0, 0, 0, 5], vec![0u8, 0, 0, 1]];
    let hash = operation_hash(&Address::Contract([7u8; 32]), &symbol("set_fee"), &args);
    assert_eq!(
        hash,
        Some([
            84, 168, 5, 211, 174, 205, 2, 119, 122, 54, 193, 60, 68, 152, 60, 79, 90, 110, 180, 0,
            159, 175, 28, 108, 158, 154, 237, 161, 2, 41, 128, 242,
        ])
    );
}

#[test]
fn hash_of_an_account_and_an_empty_name() {
    let hash = operation_hash(&Address::Account([3u8; 32]), &symbol(""), &vec![]);
    assert_eq!(
        hash,
        Some([
            109, 146, 45, 31, 50, 2, 244, 201, 55, 154, 145, 41, 248, 175, 134, 73, 188, 69, 236,
            233, 34, 94, 158, 95, 141, 158, 178, 198, 112, 106, 145, 72,
        ])
    );
}

#[test]
fn operations_are_told_apart() {
    let target = Address::Contract([7u8; 32]);
    let args = vec![vec![0u8, 0, 0, 3, 0, 0, 0, 5]];
    let bytes = operation_bytes(&target, &symbol("pause"), &args);
    let others = [
        operation_bytes(&Address::Account([7u8; 32]), &symbol("pause"), &args),
        operation_bytes(&Address::Contract([8u8; 32]), &symbol("pause"), &args),
        operation_bytes(&target, &symbol("pausf"), &args),
        operation_bytes(&target, &symbol("pause_"), &args),
        operation_bytes(&target, &symbol("pause"), &vec![]),
        operation_bytes(&target, &symbol("pause"), &vec![vec![0u8, 0, 0, 3, 0, 0, 0, 6]]),
    ];
    for other in others {
        assert_ne!(bytes, other);
    }
    assert_eq!(bytes, operation_bytes(&target, &symbol("pause"), &args));
}

#[test]
fn the_longest_operation_is_hashed_and_no_longer_one() {
    let target = Address::Account([1u8; 32]);
    let head: usize = operation_bytes(&target, &symbol("f"), &vec![]).len();
    let room: usize = MAX_OPERATION_BYTES - head;
    assert!(operation_hash(&target, &symbol("f"), &vec![vec![9u8; room]]).is_some());
    assert_eq!(operation_hash(&target, &symbol("f"), &vec![vec![9u8; room + 1]]), None);
}

#[test]
fn arguments_that_say_where_they_end_are_told_apart() {
    let target = Address::Contract([7u8; 32]);
    let one = vec![0u8, 0, 0, 3, 0, 0, 0, 1];
    let void = vec![0u8, 0, 0, 1];
    let lists = [
        vec![],
        vec![one.clone()],
        vec![void.clone()],
        vec![one.clone(), void.clone()],
        vec![void.clone(), one.clone()],
        vec![void.clone(), void.clone()],
        vec![void.clone(), void.clone(), void.clone()],
    ];
    for i in 0usize..lists.len() {
        for j in 0usize..lists.len() {
            let a = operation_bytes(&target, &symbol("f"), &lists[i]);
            let b = operation_bytes(&target, &symbol("f"), &lists[j]);
            assert_eq!(a == b, i == j);
        }
    }
}
