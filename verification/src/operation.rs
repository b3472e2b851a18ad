//! Operations on other contracts: what they are made of, their XDR form and
//! the hash by which two of them are told apart.

use crate::address::Address;
use crate::bytes::copy_bytes;
use soroban_sdk::xdr::ToXdr;
use soroban_sdk::TryFromVal;
use vstd::prelude::*;

verus! {

/// The longest operation, in bytes of XDR, that is hashed here. A fresh
/// environment meters hashing by the byte and traps when its budget is spent,
/// which is soon after this. The host that runs a call has a budget of its own
/// for longer ones.
pub const MAX_OPERATION_BYTES: usize = 1_800_000;

/// The most characters that a symbol can have.
pub const MAX_SYMBOL_BYTES: usize = 32;

/// Whether a byte is one of the characters `a-zA-Z0-9_`.
pub open spec fn is_symbol_char(c: u8) -> bool {
    ||| 97 <= c <= 122
    ||| 65 <= c <= 90
    ||| 48 <= c <= 57
    ||| c == 95
}

/// Whether a byte string is a symbol: short, and of the right characters.
pub open spec fn is_symbol(name: Seq<u8>) -> bool {
    &&& name.len() <= MAX_SYMBOL_BYTES
    &&& forall|i: int| 0 <= i < name.len() ==> is_symbol_char(#[trigger] name[i])
}

/// The name of a contract function.
#[derive(PartialEq, Eq, Debug)]
pub struct Symbol {
    name: Vec<u8>,
}

impl View for Symbol {
    type V = Seq<u8>;

    closed spec fn view(&self) -> Seq<u8> {
        self.name@
    }
}

impl Symbol {
    #[verifier::type_invariant]
    spec fn well_spelt(self) -> bool {
        is_symbol(self.name@)
    }

    /// The symbol that is spelt `name`; none where `name` is too long or holds
    /// a character that symbols do not have.
    pub fn new(name: Vec<u8>) -> (symbol: Option<Symbol>)
        ensures
            match symbol {
                Some(s) => is_symbol(name@) && s@ == name@,
                None => !is_symbol(name@),
            },
    {
        if name.len() > MAX_SYMBOL_BYTES {
            return None;
        }
        let mut i: usize = 0;
        while i < name.len()
            invariant
                i <= name@.len(),
                name@.len() <= MAX_SYMBOL_BYTES,
                forall|j: int| 0 <= j < i ==> is_symbol_char(#[trigger] name@[j]),
            decreases name@.len() - i,
        {
            let c: u8 = name[i];
            let allowed = (97 <= c && c <= 122) || (65 <= c && c <= 90) || (48 <= c && c <= 57) || c
                == 95;
            if !allowed {
                assert(!is_symbol_char(name@[i as int]));
                return None;
            }
            i += 1;
        }
        Some(Symbol { name })
    }

    /// The characters of the symbol.
    pub fn spelling(&self) -> (name: &Vec<u8>)
        ensures
            name@ == self@,
            is_symbol(name@),
    {
        proof {
            use_type_invariant(self);
        }
        &self.name
    }

    /// A copy of the symbol.
    pub fn copy(&self) -> (copy: Symbol)
        ensures
            copy@ == self@,
    {
        proof {
            use_type_invariant(self);
        }
        Symbol { name: copy_bytes(&self.name) }
    }
}

/// The XDR form of an address value: the tag of an address, the tag of its
/// kind, and its key or id; an account's key has a tag of its own.
pub open spec fn address_xdr(address: Address) -> Seq<u8> {
    match address {
        Address::Account(key) => seq![0u8, 0, 0, 18, 0, 0, 0, 0, 0, 0, 0, 0] + key@,
        Address::Contract(id) => seq![0u8, 0, 0, 18, 0, 0, 0, 1] + id@,
    }
}

/// How many zero bytes follow a string of `len` bytes in XDR, which keeps
/// everything to multiples of four.
pub open spec fn xdr_padding(len: nat) -> nat {
    ((4 - len % 4) % 4) as nat
}

/// The XDR form of a symbol value: the tag of a symbol, its length and its
/// characters, filled up with zero bytes.
pub open spec fn symbol_xdr(name: Seq<u8>) -> Seq<u8> {
    seq![0u8, 0, 0, 15, 0, 0, 0, name.len() as u8] + name + Seq::new(
        xdr_padding(name.len()),
        |i: int| 0u8,
    )
}

/// What SHA-256 makes of a byte string.
pub uninterp spec fn sha256(data: Seq<u8>) -> Seq<u8>;

/// Calls `to_xdr` of `soroban_sdk::Address`, on the address that stands for
/// this one in a fresh environment. Claimed of it: it gives the XDR form of the
/// address value.
#[verifier::external_body]
fn encode_address(address: &Address) -> (xdr: Vec<u8>)
    ensures
        xdr@ == address_xdr(*address),
{
    let env = soroban_sdk::Env::default();
    let sc_address = match *address {
        Address::Account(key) => soroban_sdk::xdr::ScAddress::Account(
            soroban_sdk::xdr::AccountId(soroban_sdk::xdr::PublicKey::PublicKeyTypeEd25519(
                soroban_sdk::xdr::Uint256(key))),
        ),
        Address::Contract(id) => soroban_sdk::xdr::ScAddress::Contract(soroban_sdk::xdr::Hash(id)),
    };
    let outside = soroban_sdk::Address::try_from_val(&env, &sc_address).unwrap();
    outside.to_xdr(&env).iter().collect()
}

/// Calls `to_xdr` of `soroban_sdk::Symbol`, on the symbol of that spelling in a
/// fresh environment. Claimed of it: it gives the XDR form of the symbol value.
/// `Symbol::new` panics on a string that is no symbol, so none is let in.
#[verifier::external_body]
fn encode_symbol(name: &Vec<u8>) -> (xdr: Vec<u8>)
    requires
        is_symbol(name@),
    ensures
        xdr@ == symbol_xdr(name@),
{
    let env = soroban_sdk::Env::default();
    let text = core::str::from_utf8(name).unwrap();
    soroban_sdk::Symbol::new(&env, text).to_xdr(&env).iter().collect()
}

/// Calls `Crypto::sha256` of `soroban_sdk`, in a fresh environment. Claimed of
/// it: the result is 32 bytes long and depends on the data alone. The call traps
/// when the budget of the environment is spent, so longer data is not let in.
#[verifier::external_body]
fn hash_bytes(data: &Vec<u8>) -> (hash: [u8; 32])
    requires
        data@.len() <= MAX_OPERATION_BYTES,
    ensures
        hash@ == sha256(data@),
{
    let env = soroban_sdk::Env::default();
    let bytes = soroban_sdk::Bytes::from_slice(&env, data);
    env.crypto().sha256(&bytes).to_array()
}

/// The bytes by which an operation is identified: the XDR forms of the target,
/// of the function's name and of each argument, one behind the other. The
/// arguments are given in XDR form.
pub open spec fn operation_xdr(target: Address, function_name: Seq<u8>, args: Seq<Seq<u8>>) -> Seq<
    u8,
> {
    address_xdr(target) + symbol_xdr(function_name) + args.flatten()
}

/// The bytes by which an operation is identified.
pub fn operation_bytes(target: &Address, function_name: &Symbol, args: &Vec<Vec<u8>>) -> (bytes:
    Vec<u8>)
    ensures
        bytes@ == operation_xdr(*target, function_name@, crate::bytes::contents(args@)),
{
    let mut bytes = encode_address(target);
    let mut name = encode_symbol(function_name.spelling());
    bytes.append(&mut name);
    let ghost head = address_xdr(*target) + symbol_xdr(function_name@);
    let ghost all = crate::bytes::contents(args@);
    assert(all.take(0).flatten() =~= Seq::<u8>::empty());
    assert(bytes@ =~= head + all.take(0).flatten());
    let mut i: usize = 0;
    while i < args.len()
        invariant
            i <= args@.len(),
            all == crate::bytes::contents(args@),
            bytes@ == head + all.take(i as int).flatten(),
        decreases args@.len() - i,
    {
        let mut arg = copy_bytes(&args[i]);
        bytes.append(&mut arg);
        proof {
            let next = all.take(i + 1);
            assert(next.drop_last() =~= all.take(i as int));
            assert(next.last() == args@[i as int]@);
            next.lemma_flatten_and_flatten_alt_are_equivalent();
            all.take(i as int).lemma_flatten_and_flatten_alt_are_equivalent();
            assert(bytes@ =~= head + next.flatten());
        }
        i += 1;
    }
    assert(all.take(args@.len() as int) =~= all);
    bytes
}

/// Whether an operation is short enough to be hashed here.
pub open spec fn operation_fits(
    target: Address,
    function_name: Seq<u8>,
    args: Seq<Seq<u8>>,
) -> bool {
    operation_xdr(target, function_name, args).len() <= MAX_OPERATION_BYTES
}

/// The hash of an operation.
pub open spec fn operation_hash_of(
    target: Address,
    function_name: Seq<u8>,
    args: Seq<Seq<u8>>,
) -> Seq<u8> {
    sha256(operation_xdr(target, function_name, args))
}

/// The hash of an operation; none where the operation is too long to be hashed
/// here.
pub fn operation_hash(target: &Address, function_name: &Symbol, args: &Vec<Vec<u8>>) -> (hash:
    Option<[u8; 32]>)
    ensures
        match hash {
            Some(hash) => operation_fits(*target, function_name@, crate::bytes::contents(args@))
                && hash@ == operation_hash_of(
                *target,
                function_name@,
                crate::bytes::contents(args@),
            ),
            None => !operation_fits(*target, function_name@, crate::bytes::contents(args@)),
        },
{
    let bytes = operation_bytes(target, function_name, args);
    if bytes.len() > MAX_OPERATION_BYTES {
        return None;
    }
    Some(hash_bytes(&bytes))
}

/// Two operations with the same bytes call the same function of the same
/// contract, with arguments that are spelt the same.
pub proof fn law_operations_are_told_apart(
    target: Address,
    function_name: Seq<u8>,
    args: Seq<Seq<u8>>,
    other_target: Address,
    other_name: Seq<u8>,
    other_args: Seq<Seq<u8>>,
)
    requires
        is_symbol(function_name),
        is_symbol(other_name),
        operation_xdr(target, function_name, args) == operation_xdr(
            other_target,
            other_name,
            other_args,
        ),
    ensures
        target == other_target,
        function_name == other_name,
        args.flatten() == other_args.flatten(),
{
    let bytes = operation_xdr(target, function_name, args);
    let head = address_xdr(target);
    let other_head = address_xdr(other_target);
    assert(bytes[7] == head[7]);
    assert(bytes[7] == other_head[7]);
    assert(head.len() == other_head.len());
    assert forall|i: int| 0 <= i < head.len() implies head[i] == other_head[i] by {
        assert(bytes[i] == head[i]);
        assert(bytes[i] == other_head[i]);
    }
    match (target, other_target) {
        (Address::Account(key), Address::Account(other)) => {
            assert forall|i: int| 0 <= i < 32 implies key[i] == other[i] by {
                assert(head[i + 12] == key@[i]);
                assert(other_head[i + 12] == other@[i]);
            }
            assert(key =~= other);
        },
        (Address::Contract(id), Address::Contract(other)) => {
            assert forall|i: int| 0 <= i < 32 implies id[i] == other[i] by {
                assert(head[i + 8] == id@[i]);
                assert(other_head[i + 8] == other@[i]);
            }
            assert(id =~= other);
        },
        _ => {},
    }
    let n = head.len() as int;
    let name = symbol_xdr(function_name);
    let name_again = symbol_xdr(other_name);
    assert(bytes[n + 7] == name[7]);
    assert(bytes[n + 7] == name_again[7]);
    assert(function_name.len() == other_name.len());
    assert forall|i: int| 0 <= i < function_name.len() implies function_name[i] == other_name[i] by {
        assert(bytes[n + 8 + i] == name[8 + i]);
        assert(bytes[n + 8 + i] == name_again[8 + i]);
    }
    assert(function_name =~= other_name);
    let m = n + name.len();
    assert(bytes.skip(m) =~= args.flatten());
    assert(bytes.skip(m) =~= other_args.flatten());
}

/// Whether every value of two lists ends where its own bytes say: none of them
/// is empty, and none goes on where another one ends. XDR values are such.
pub open spec fn self_delimiting(values: Seq<Seq<u8>>, others: Seq<Seq<u8>>) -> bool {
    let all = values + others;
    &&& forall|i: int| 0 <= i < all.len() ==> (#[trigger] all[i]).len() > 0
    &&& forall|i: int, j: int|
        0 <= i < all.len() && 0 <= j < all.len() && (#[trigger] all[i]).is_prefix_of(
            #[trigger] all[j],
        ) ==> all[i] == all[j]
}

proof fn lemma_self_delimiting_rest(values: Seq<Seq<u8>>, others: Seq<Seq<u8>>)
    requires
        self_delimiting(values, others),
        values.len() > 0,
        others.len() > 0,
    ensures
        self_delimiting(values.drop_first(), others.drop_first()),
{
    let all = values + others;
    let rest = values.drop_first() + others.drop_first();
    let n = values.len() - 1;
    assert forall|i: int| 0 <= i < rest.len() implies (#[trigger] rest[i]).len() > 0 by {
        assert(rest[i] == all[if i < n {
            i + 1
        } else {
            i + 2
        }]);
    }
    assert forall|i: int, j: int|
        0 <= i < rest.len() && 0 <= j < rest.len() && (#[trigger] rest[i]).is_prefix_of(
            #[trigger] rest[j],
        ) implies rest[i] == rest[j] by {
        assert(rest[i] == all[if i < n {
            i + 1
        } else {
            i + 2
        }]);
        assert(rest[j] == all[if j < n {
            j + 1
        } else {
            j + 2
        }]);
    }
}

/// Lists of self-delimiting values with the same bytes are the same list: as
/// many values, in the same order.
pub proof fn law_arguments_are_told_apart(args: Seq<Seq<u8>>, other_args: Seq<Seq<u8>>)
    requires
        self_delimiting(args, other_args),
        args.flatten() == other_args.flatten(),
    ensures
        args == other_args,
    decreases args.len(),
{
    let all = args + other_args;
    let bytes = args.flatten();
    if args.len() == 0 && other_args.len() > 0 {
        assert(all[0] == other_args.first());
        assert(other_args.flatten() =~= other_args.first() + other_args.drop_first().flatten());
        assert(bytes.len() == 0);
    } else if args.len() > 0 && other_args.len() == 0 {
        assert(all[0] == args.first());
        assert(args.flatten() =~= args.first() + args.drop_first().flatten());
        assert(other_args.flatten().len() == 0);
    } else if args.len() > 0 {
        let a = args.first();
        let b = other_args.first();
        let a_rest = args.drop_first().flatten();
        let b_rest = other_args.drop_first().flatten();
        assert(bytes == a + a_rest);
        assert(bytes == b + b_rest);
        assert(all[0] == a);
        assert(all[args.len() as int] == b);
        if a.len() <= b.len() {
            assert forall|i: int| 0 <= i < a.len() implies a[i] == b[i] by {
                assert(bytes[i] == a[i] && bytes[i] == b[i]);
            }
            assert(a.is_prefix_of(b)) by {
                assert(a =~= b.subrange(0, a.len() as int));
            }
        } else {
            assert forall|i: int| 0 <= i < b.len() implies a[i] == b[i] by {
                assert(bytes[i] == a[i] && bytes[i] == b[i]);
            }
            assert(b.is_prefix_of(a)) by {
                assert(b =~= a.subrange(0, b.len() as int));
            }
        }
        assert(a == b);
        let n = a.len() as int;
        assert(a_rest =~= bytes.skip(n));
        assert(b_rest =~= bytes.skip(n));
        lemma_self_delimiting_rest(args, other_args);
        law_arguments_are_told_apart(args.drop_first(), other_args.drop_first());
        assert(args =~= seq![a] + args.drop_first());
        assert(other_args =~= seq![b] + other_args.drop_first());
    } else {
        assert(args =~= other_args);
    }
}

/// A symbol is at most 32 letters, digits and underscores.
pub proof fn law_symbols(name: Seq<u8>)
    ensures
        is_symbol(name) <==> {
            &&& name.len() <= 32
            &&& forall|i: int|
                0 <= i < name.len() ==> {
                    ||| 'a' as int <= #[trigger] name[i] <= 'z' as int
                    ||| 'A' as int <= name[i] <= 'Z' as int
                    ||| '0' as int <= name[i] <= '9' as int
                    ||| name[i] == '_' as int
                }
        },
{
    assert('a' as int == 97 && 'z' as int == 122 && 'A' as int == 65 && 'Z' as int == 90);
    assert('0' as int == 48 && '9' as int == 57 && '_' as int == 95);
    if is_symbol(name) {
        assert forall|i: int| 0 <= i < name.len() implies {
            ||| 'a' as int <= #[trigger] name[i] <= 'z' as int
            ||| 'A' as int <= name[i] <= 'Z' as int
            ||| '0' as int <= name[i] <= '9' as int
            ||| name[i] == '_' as int
        } by {
            assert(is_symbol_char(name[i]));
        }
    }
}

/// The bytes of an address are a tag, its kind and its 32 bytes; those of an
/// account have its key's kind before these.
pub proof fn law_address_bytes(key: [u8; 32], i: int)
    ensures
        address_xdr(Address::Account(key)).len() == 44,
        address_xdr(Address::Contract(key)).len() == 40,
        address_xdr(Address::Account(key)).take(12) == seq![
            0u8,
            0,
            0,
            18,
            0,
            0,
            0,
            0,
            0,
            0,
            0,
            0,
        ],
        address_xdr(Address::Contract(key)).take(8) == seq![0u8, 0, 0, 18, 0, 0, 0, 1],
        0 <= i < 32 ==> address_xdr(Address::Account(key))[12 + i] == key@[i],
        0 <= i < 32 ==> address_xdr(Address::Contract(key))[8 + i] == key@[i],
{
}

/// The bytes of a symbol are a tag, its length, its characters, and as many zeros
/// as make the whole a multiple of four, fewer than four of them.
pub proof fn law_symbol_bytes(name: Seq<u8>, i: int)
    requires
        is_symbol(name),
    ensures
        ({
            let bytes = symbol_xdr(name);
            &&& bytes.len() % 4 == 0
            &&& 8 + name.len() <= bytes.len() < 8 + name.len() + 4
            &&& bytes.take(7) == seq![0u8, 0, 0, 15, 0, 0, 0]
            &&& bytes[7] == name.len()
            &&& 0 <= i < name.len() ==> bytes[8 + i] == name[i]
            &&& 8 + name.len() <= i < bytes.len() ==> bytes[i] == 0
        }),
{
    assert(symbol_xdr(name).take(7) =~= seq![0u8, 0, 0, 15, 0, 0, 0]);
}

/// The bytes of an operation are those of its target and of its function, and
/// each further argument adds its own at the end. They can be hashed here where
/// they are at most 1,800,000, and the operation's hash is their SHA-256.
pub proof fn law_operation_bytes(
    target: Address,
    function_name: Seq<u8>,
    args: Seq<Seq<u8>>,
    arg: Seq<u8>,
)
    ensures
        operation_xdr(target, function_name, Seq::empty()) == address_xdr(target) + symbol_xdr(
            function_name,
        ),
        operation_xdr(target, function_name, args.push(arg)) == operation_xdr(
            target,
            function_name,
            args,
        ) + arg,
        operation_fits(target, function_name, args) <==> operation_xdr(
            target,
            function_name,
            args,
        ).len() <= 1_800_000,
        operation_hash_of(target, function_name, args) == sha256(
            operation_xdr(target, function_name, args),
        ),
{
    assert(Seq::<Seq<u8>>::empty().flatten() =~= Seq::<u8>::empty());
    assert(operation_xdr(target, function_name, Seq::empty()) =~= address_xdr(target) + symbol_xdr(
        function_name,
    ));
    let more = args.push(arg);
    more.lemma_flatten_and_flatten_alt_are_equivalent();
    args.lemma_flatten_and_flatten_alt_are_equivalent();
    assert(more.drop_last() =~= args);
    assert(more.flatten() == args.flatten() + arg);
    assert(operation_xdr(target, function_name, more) =~= operation_xdr(
        target,
        function_name,
        args,
    ) + arg);
}

} // verus!
