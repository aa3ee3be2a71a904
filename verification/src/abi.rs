//! Contract calls in the Ethereum ABI: a four-byte selector, then one
//! 32-byte word for each argument of a static type.

use vstd::prelude::*;
use vstd::arithmetic::power2::pow2;
use ethers_core::abi::{ParamType, Token, Uint};
use ethers_core::types::H160;
use crate::address::EthAddress;
use crate::error::BridgeError;
use crate::uint::{be_bytes, is_uint_width, lemma_be_bytes_len, lemma_be_bytes_of_value, U256};

verus! {

/// A static parameter type.
#[derive(Clone, Copy, Debug, PartialEq, Eq)]
pub enum AbiType {
    /// `uint<bits>`.
    Uint(usize),
    /// `address`.
    Address,
    /// `bool`.
    Bool,
}

/// A value for a parameter of a static type.
#[derive(Clone, Copy, Debug, PartialEq, Eq)]
pub enum AbiValue {
    Uint(U256),
    Address(EthAddress),
    Bool(bool),
}

/// Whether a function reads or changes the chain's state.
#[derive(Clone, Copy, Debug, PartialEq, Eq)]
pub enum Mutability {
    Pure,
    View,
    NonPayable,
    Payable,
}

/// The description of a contract function.
#[derive(Clone, Debug, PartialEq, Eq)]
pub struct AbiFunction {
    pub name: String,
    pub inputs: Vec<AbiType>,
    pub outputs: Vec<AbiType>,
    pub mutability: Mutability,
}

/// What a value stands for: a number, an address's bytes, or a truth value.
pub enum AbiValueView {
    Uint(nat),
    Address(Seq<u8>),
    Bool(bool),
}

impl View for AbiValue {
    type V = AbiValueView;

    open spec fn view(&self) -> AbiValueView {
        match *self {
            AbiValue::Uint(n) => AbiValueView::Uint(n@),
            AbiValue::Address(a) => AbiValueView::Address(a@),
            AbiValue::Bool(b) => AbiValueView::Bool(b),
        }
    }
}

/// What each of `args` stands for.
pub open spec fn values_of(args: Seq<AbiValue>) -> Seq<AbiValueView> {
    args.map_values(|value: AbiValue| value@)
}

/// `n` zero bytes.
pub open spec fn zeros(n: nat) -> Seq<u8> {
    Seq::new(n, |i: int| 0u8)
}

/// The 32-byte word of a value: a number as its big-endian bytes, an address
/// behind twelve zero bytes, a truth value as 0 or 1 in the last byte.
pub open spec fn word_of(value: AbiValueView) -> Seq<u8> {
    match value {
        AbiValueView::Uint(n) => be_bytes(n, 32),
        AbiValueView::Address(a) => zeros(12) + a,
        AbiValueView::Bool(b) => zeros(31).push(if b { 1u8 } else { 0u8 }),
    }
}

/// The words of `args`, one after the other.
pub open spec fn words_of(args: Seq<AbiValueView>) -> Seq<u8>
    decreases args.len(),
{
    if args.len() == 0 {
        Seq::empty()
    } else {
        words_of(args.drop_last()) + word_of(args.last())
    }
}

/// Whether `value` can stand for a parameter of type `ty`: it is of that
/// kind, a number is below two to the type's width, and an address has
/// twenty bytes.
pub open spec fn fits(value: AbiValueView, ty: AbiType) -> bool {
    match (value, ty) {
        (AbiValueView::Uint(n), AbiType::Uint(bits)) => is_uint_width(bits) && n < pow2(bits as nat),
        (AbiValueView::Address(a), AbiType::Address) => a.len() == 20,
        (AbiValueView::Bool(_), AbiType::Bool) => true,
        _ => false,
    }
}

/// Whether `args` can be passed to a function with the parameters `inputs`:
/// one argument for each, each fitting its type, and no more words than a
/// 32-bit count of bytes can hold.
pub open spec fn args_fit(inputs: Seq<AbiType>, args: Seq<AbiValueView>) -> bool {
    &&& inputs.len() == args.len()
    &&& 32 * args.len() <= u32::MAX
    &&& forall|i: int| 0 <= i < args.len() ==> fits(#[trigger] args[i], inputs[i])
}

/// The selector of a function: the first four bytes of the Keccak-256 digest
/// of its canonical signature, `name(type1,type2,...)`, as
/// `ethabi::short_signature` computes them.
pub uninterp spec fn short_signature(name: Seq<char>, inputs: Seq<AbiType>) -> Seq<u8>;

/// What a call of the function `name` with `args` is encoded as: the
/// selector, then the arguments' words.
pub open spec fn call_data(name: Seq<char>, inputs: Seq<AbiType>, args: Seq<AbiValueView>) -> Seq<
    u8,
> {
    short_signature(name, inputs) + words_of(args)
}

/// The word of an integer is the thirty-two bytes that it is kept as.
pub proof fn lemma_uint_word(n: U256)
    ensures
        word_of(AbiValue::Uint(n)@) == n.bytes@,
{
    lemma_be_bytes_of_value(n.bytes@);
}

/// Each value has a word of 32 bytes where it fits a type.
pub proof fn lemma_words_len(inputs: Seq<AbiType>, args: Seq<AbiValueView>)
    requires
        inputs.len() == args.len(),
        forall|i: int| 0 <= i < args.len() ==> fits(#[trigger] args[i], inputs[i]),
    ensures
        words_of(args).len() == 32 * args.len(),
    decreases args.len(),
{
    if args.len() > 0 {
        let front = args.drop_last();
        assert forall|i: int| 0 <= i < front.len() implies fits(
            #[trigger] front[i],
            inputs.drop_last()[i],
        ) by {
            assert(fits(args[i], inputs[i]));
        }
        lemma_words_len(inputs.drop_last(), front);
        assert(fits(args.last(), inputs.last()));
        lemma_be_bytes_len(args.last()->Uint_0, 32);
    }
}

impl AbiValue {
    /// Whether the value can stand for a parameter of type `ty`.
    pub fn fits(&self, ty: &AbiType) -> (r: bool)
        ensures
            r == fits(self@, *ty),
    {
        match (self, ty) {
            (AbiValue::Uint(n), AbiType::Uint(bits)) => n.fits(*bits),
            (AbiValue::Address(_), AbiType::Address) => true,
            (AbiValue::Bool(_), AbiType::Bool) => true,
            _ => false,
        }
    }
}

impl AbiFunction {
    /// `ownerOf(uint256)`, the view function of a token contract that gives
    /// the address owning a token.
    pub fn owner_of() -> (f: AbiFunction)
        ensures
            f.name@ == "ownerOf"@,
            f.inputs@ == seq![AbiType::Uint(256)],
            f.outputs@ == seq![AbiType::Address],
            f.mutability == Mutability::View,
    {
        let mut inputs: Vec<AbiType> = Vec::new();
        inputs.push(AbiType::Uint(256));
        let mut outputs: Vec<AbiType> = Vec::new();
        outputs.push(AbiType::Address);
        let f = AbiFunction {
            name: String::from_str("ownerOf"),
            inputs,
            outputs,
            mutability: Mutability::View,
        };
        assert(f.inputs@ =~= seq![AbiType::Uint(256)]);
        assert(f.outputs@ =~= seq![AbiType::Address]);
        f
    }

    /// Whether `args` can be passed to the function.
    pub fn accepts(&self, args: &Vec<AbiValue>) -> (r: bool)
        ensures
            r == args_fit(self.inputs@, values_of(args@)),
    {
        if self.inputs.len() != args.len() || args.len() > 0x07ff_ffff {
            return false;
        }
        let mut i: usize = 0;
        while i < args.len()
            invariant
                self.inputs@.len() == args@.len(),
                i <= args@.len(),
                forall|k: int| 0 <= k < i ==> fits(#[trigger] values_of(args@)[k], self.inputs@[k]),
            decreases args@.len() - i,
        {
            assert(values_of(args@)[i as int] == args@[i as int]@);
            if !args[i].fits(&self.inputs[i]) {
                return false;
            }
            i = i + 1;
        }
        true
    }

    /// Encodes a call of the function with `args`: the selector, then the
    /// arguments' words. Fails with `Encoding` where the arguments do not fit
    /// the declared parameters.
    pub fn encode_call(&self, args: &Vec<AbiValue>) -> (r: Result<Vec<u8>, BridgeError>)
        ensures
            args_fit(self.inputs@, values_of(args@)) ==> r is Ok && r->Ok_0@ == call_data(
                self.name@,
                self.inputs@,
                values_of(args@),
            ),
            r is Ok ==> r->Ok_0@.len() == 4 + 32 * args@.len(),
            !args_fit(self.inputs@, values_of(args@)) ==> r == Err::<Vec<u8>, BridgeError>(
                BridgeError::Encoding,
            ),
    {
        if !self.accepts(args) {
            return Err(BridgeError::Encoding);
        }
        let head = selector(self.name.as_str(), &self.inputs);
        let mut words = encode_words(args);
        let mut data: Vec<u8> = Vec::new();
        let mut i: usize = 0;
        while i < 4
            invariant
                i <= 4,
                data@ == head@.take(i as int),
            decreases 4 - i,
        {
            data.push(head[i]);
            assert(head@.take(i + 1) =~= head@.take(i as int).push(head@[i as int]));
            i = i + 1;
        }
        proof {
            assert(head@.take(4) =~= head@);
            lemma_words_len(self.inputs@, values_of(args@));
        }
        data.append(&mut words);
        Ok(data)
    }
}

/// `ethabi::short_signature` of a function name and its parameter types.
/// The contract gives the four bytes a name and says nothing more of them.
#[verifier::external_body]
fn selector(name: &str, inputs: &Vec<AbiType>) -> (r: [u8; 4])
    ensures
        r@ == short_signature(name@, inputs@),
{
    let kinds = inputs.iter().map(|ty| match ty {
        AbiType::Uint(bits) => ParamType::Uint(*bits),
        AbiType::Address => ParamType::Address,
        AbiType::Bool => ParamType::Bool,
    });
    ethers_core::abi::short_signature(name, &kinds.collect::<Vec<ParamType>>())
}

/// `ethabi::encode` on integers, addresses and booleans: for each value one
/// 32-byte word, in the order given. An integer becomes its big-endian bytes,
/// an address is copied behind twelve zero bytes, and a boolean is 0 or 1 in
/// the last byte. `ethabi` counts the bytes in 32 bits, so the call is made
/// only where that count fits.
#[verifier::external_body]
fn encode_words(args: &Vec<AbiValue>) -> (r: Vec<u8>)
    requires
        32 * args@.len() <= u32::MAX,
    ensures
        r@ == words_of(values_of(args@)),
{
    let tokens = args.iter().map(|value| match value {
        AbiValue::Uint(n) => Token::Uint(Uint::from_big_endian(&n.bytes)),
        AbiValue::Address(a) => Token::Address(H160(a.bytes)),
        AbiValue::Bool(b) => Token::Bool(*b),
    });
    ethers_core::abi::encode(&tokens.collect::<Vec<Token>>())
}

} // verus!
