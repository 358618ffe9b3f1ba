//! The operation table: the fixed catalog of exported operations.
//!
//! Each operation is described once, by the size rules its input buffers
//! must meet, the rule on its derivation index, the policy that sizes its
//! output buffer, the convention by which the native engine reports its
//! result, and the encoding of the host-visible value. The bridge enforces
//! these contracts uniformly instead of reimplementing them per operation.

use vstd::prelude::*;

use crate::errors::CallError;
use crate::policy::SizePolicy;
use crate::sizes::{
    ADDRESS_ITEM_SIZE, ADDRESS_LIST_OVERHEAD, CHECK_ITEM_SIZE, CIPHER_OVERHEAD,
    FIRST_HARDENED_INDEX, MAX_OUTPUT_SIZE, MIN_CIPHERTEXT_SIZE, NONCE_SIZE, SALT_SIZE, SEED_SIZE,
    SIGNATURE_SIZE, TX_ITEM_SIZE, TX_OVERHEAD, XPRV_SIZE, XPUB_SIZE,
};

verus! {

/// One exported operation of the bridge.
#[derive(Clone, Copy, Debug, PartialEq, Eq, Structural)]
pub enum Operation {
    /// Derive an extended private key from entropy and a password.
    FromEnhancedEntropy,
    /// Derive an extended private key from a fixed-size seed.
    FromSeed,
    /// Extract the extended public key of an extended private key.
    ToPublic,
    /// Derive a private child key at a 32-bit index.
    DerivePrivate,
    /// Derive a public child key at a non-hardened 32-bit index.
    DerivePublic,
    /// Sign a message with an extended private key.
    Sign,
    /// Encrypt a payload under a password, salt and nonce.
    EncryptWithPassword,
    /// Decrypt a ciphertext under a password.
    DecryptWithPassword,
    /// Build a random-address checker from an extended private key in text form.
    NewChecker,
    /// Build a random-address checker from a mnemonic sentence.
    NewCheckerFromMnemonics,
    /// Check a batch of addresses against a checker; the caller hints how
    /// many addresses the parameters hold.
    CheckAddresses,
    /// Restore a wallet from a master key.
    FromMasterKey,
    /// Restore a wallet from a legacy mnemonic sentence.
    FromDaedalusMnemonic,
    /// Create a new account of a wallet.
    NewAccount,
    /// Generate addresses; the caller hints how many are requested.
    GenerateAddresses,
    /// Check whether one address belongs to a wallet.
    CheckAddress,
    /// Build a spending transaction; the caller hints the input and output
    /// counts.
    Spend,
    /// Build a funds-moving transaction; the caller hints the input count.
    Move,
}

/// The size contract of one input buffer.
#[derive(Clone, Copy, Debug, PartialEq, Eq, Structural)]
pub enum SizeRule {
    /// Any length is accepted; the engine interprets the bytes itself.
    AnyLength,
    /// The buffer must have exactly this length.
    Exactly(usize),
    /// The buffer must have at least this length.
    AtLeast(usize),
}

/// The contract on an operation's derivation index.
#[derive(Clone, Copy, Debug, PartialEq, Eq, Structural)]
pub enum IndexRule {
    /// The operation takes no index; the value is ignored.
    Unused,
    /// Any 32-bit index is accepted.
    AnyIndex,
    /// Only non-hardened indices are accepted: hardened derivation needs the
    /// private key.
    SoftOnly,
}

/// How the native engine reports the result of one call.
#[derive(Clone, Copy, Debug, PartialEq, Eq, Structural)]
pub enum ResultConvention {
    /// The engine returns a status word; zero means it filled the whole
    /// output buffer.
    StatusZero,
    /// The engine returns nothing; completing the call means it filled the
    /// whole output buffer.
    WritesExact,
    /// The engine returns a flag; true means it filled the whole output
    /// buffer, false means the derivation is mathematically impossible.
    BoolFlag,
    /// The engine returns a signed written length that must equal the
    /// allocated capacity exactly.
    ExactLen,
    /// The engine returns a signed written length that must be positive and
    /// at most the allocated capacity; only that prefix is exposed.
    BoundedLen,
}

/// Whether the host sees the output as raw bytes or as UTF-8 text.
#[derive(Clone, Copy, Debug, PartialEq, Eq, Structural)]
pub enum OutputEncoding {
    /// The output bytes are returned as a binary buffer.
    Binary,
    /// The output bytes are materialized as UTF-8 text at the host boundary.
    Text,
}

/// The full contract of one operation, as the table declares it.
pub struct OperationContract {
    /// One rule per input buffer, in call order.
    pub input_rules: Vec<SizeRule>,
    /// The rule on the derivation index.
    pub index_rule: IndexRule,
    /// How the output capacity is computed before the native call.
    pub size_policy: SizePolicy,
    /// How the engine reports its result.
    pub convention: ResultConvention,
    /// How the host sees the output.
    pub encoding: OutputEncoding,
}

/// Whether one buffer length satisfies a rule.
pub open spec fn rule_admits(rule: SizeRule, len: usize) -> bool {
    match rule {
        SizeRule::AnyLength => true,
        SizeRule::Exactly(n) => len == n,
        SizeRule::AtLeast(n) => len >= n,
    }
}

/// The error a violated rule reports. The first arm keeps the function
/// total; a rule admitting any length is never violated.
pub open spec fn rule_error(rule: SizeRule, len: usize) -> CallError {
    match rule {
        SizeRule::AnyLength => CallError::WrongInputSize { actual: len, expected: len },
        SizeRule::Exactly(n) => CallError::WrongInputSize { actual: len, expected: n },
        SizeRule::AtLeast(n) => CallError::InputTooShort { actual: len, minimum: n },
    }
}

/// Validation of a list of input lengths against the rules, first violation
/// first, exactly as the executable check walks them.
pub open spec fn validate_model(rules: Seq<SizeRule>, lens: Seq<usize>) -> Result<(), CallError>
    recommends
        rules.len() == lens.len(),
    decreases rules.len(),
{
    if rules.len() == 0 {
        Ok(())
    } else if !rule_admits(rules[0], lens[0]) {
        Err(rule_error(rules[0], lens[0]))
    } else {
        validate_model(rules.drop_first(), lens.drop_first())
    }
}

/// Whether every input length satisfies its rule.
pub open spec fn inputs_admitted(rules: Seq<SizeRule>, lens: Seq<usize>) -> bool {
    forall|i: int| 0 <= i < rules.len() ==> rule_admits(rules[i], #[trigger] lens[i])
}

/// Validation succeeds exactly when every rule admits its length, and a
/// rejection is always one of the input-size errors.
pub proof fn lemma_validate_model_characterized(rules: Seq<SizeRule>, lens: Seq<usize>)
    requires
        rules.len() == lens.len(),
    ensures
        validate_model(rules, lens) is Ok <==> inputs_admitted(rules, lens),
        validate_model(rules, lens) matches Err(e) ==> e.is_input_error(),
    decreases rules.len(),
{
    if rules.len() == 0 {
    } else if !rule_admits(rules[0], lens[0]) {
        assert(!inputs_admitted(rules, lens));
    } else {
        lemma_validate_model_characterized(rules.drop_first(), lens.drop_first());
        assert(inputs_admitted(rules.drop_first(), lens.drop_first()) <==> inputs_admitted(
            rules,
            lens,
        )) by {
            if inputs_admitted(rules.drop_first(), lens.drop_first()) {
                assert forall|i: int| 0 <= i < rules.len() implies rule_admits(
                    rules[i],
                    #[trigger] lens[i],
                ) by {
                    if i > 0 {
                        assert(rule_admits(rules.drop_first()[i - 1], lens.drop_first()[i - 1]));
                    }
                }
            } else {
                let j = choose|i: int|
                    0 <= i < rules.drop_first().len() && !rule_admits(
                        rules.drop_first()[i],
                        #[trigger] lens.drop_first()[i],
                    );
                assert(!rule_admits(rules[j + 1], lens[j + 1]));
            }
        }
    }
}

/// Checks every input buffer's length against its rule. Returns the first
/// violation, before any native call.
pub fn validate_inputs(rules: &Vec<SizeRule>, lens: &Vec<usize>) -> (r: Result<(), CallError>)
    requires
        rules@.len() == lens@.len(),
    ensures
        r == validate_model(rules@, lens@),
{
    let n = rules.len();
    let mut i: usize = 0;
    proof {
        assert(rules@.skip(0) =~= rules@);
        assert(lens@.skip(0) =~= lens@);
    }
    while i < n
        invariant
            n == rules@.len() == lens@.len(),
            0 <= i <= n,
            validate_model(rules@, lens@) == validate_model(
                rules@.skip(i as int),
                lens@.skip(i as int),
            ),
        decreases n - i,
    {
        let rule = rules[i];
        let len = lens[i];
        let ok = match rule {
            SizeRule::AnyLength => true,
            SizeRule::Exactly(expected) => len == expected,
            SizeRule::AtLeast(minimum) => len >= minimum,
        };
        if !ok {
            let e = match rule {
                SizeRule::AnyLength => CallError::WrongInputSize { actual: len, expected: len },
                SizeRule::Exactly(expected) => CallError::WrongInputSize { actual: len, expected },
                SizeRule::AtLeast(minimum) => CallError::InputTooShort { actual: len, minimum },
            };
            proof {
                assert(rules@.skip(i as int)[0] == rules@[i as int]);
                assert(lens@.skip(i as int)[0] == lens@[i as int]);
            }
            return Err(e);
        }
        proof {
            assert(rules@.skip(i as int).drop_first() =~= rules@.skip(i + 1));
            assert(lens@.skip(i as int).drop_first() =~= lens@.skip(i + 1));
        }
        i = i + 1;
    }
    proof {
        assert(rules@.skip(n as int).len() == 0);
    }
    Ok(())
}

/// Whether an index satisfies an operation's index rule.
pub open spec fn index_admits(rule: IndexRule, index: u32) -> bool {
    match rule {
        IndexRule::Unused => true,
        IndexRule::AnyIndex => true,
        IndexRule::SoftOnly => index < FIRST_HARDENED_INDEX,
    }
}

/// Checks an index against a rule; a hardened index where only soft ones are
/// allowed is rejected before any native call.
pub fn check_index(rule: &IndexRule, index: u32) -> (r: Result<(), CallError>)
    ensures
        r == if index_admits(*rule, index) {
            Ok::<(), CallError>(())
        } else {
            Err::<(), CallError>(CallError::HardenedIndex { index })
        },
{
    match rule {
        IndexRule::Unused => Ok(()),
        IndexRule::AnyIndex => Ok(()),
        IndexRule::SoftOnly => if index < FIRST_HARDENED_INDEX {
            Ok(())
        } else {
            Err(CallError::HardenedIndex { index })
        },
    }
}

/// The input rules of each operation. The last listed buffer is the
/// operation's payload where its size policy depends on one.
pub open spec fn op_input_rules(op: Operation) -> Seq<SizeRule> {
    match op {
        Operation::FromEnhancedEntropy => seq![SizeRule::AnyLength, SizeRule::AnyLength],
        Operation::FromSeed => seq![SizeRule::Exactly(SEED_SIZE)],
        Operation::ToPublic => seq![SizeRule::Exactly(XPRV_SIZE)],
        Operation::DerivePrivate => seq![SizeRule::Exactly(XPRV_SIZE)],
        Operation::DerivePublic => seq![SizeRule::Exactly(XPUB_SIZE)],
        Operation::Sign => seq![SizeRule::Exactly(XPRV_SIZE), SizeRule::AnyLength],
        Operation::EncryptWithPassword => seq![
            SizeRule::AnyLength,
            SizeRule::Exactly(SALT_SIZE),
            SizeRule::Exactly(NONCE_SIZE),
            SizeRule::AnyLength,
        ],
        Operation::DecryptWithPassword => seq![
            SizeRule::AnyLength,
            SizeRule::AtLeast(MIN_CIPHERTEXT_SIZE),
        ],
        Operation::NewChecker => seq![SizeRule::AnyLength],
        Operation::NewCheckerFromMnemonics => seq![SizeRule::AnyLength],
        Operation::CheckAddresses => seq![SizeRule::AnyLength],
        Operation::FromMasterKey => seq![SizeRule::AnyLength],
        Operation::FromDaedalusMnemonic => seq![SizeRule::AnyLength],
        Operation::NewAccount => seq![SizeRule::AnyLength],
        Operation::GenerateAddresses => seq![SizeRule::AnyLength],
        Operation::CheckAddress => seq![SizeRule::AnyLength],
        Operation::Spend => seq![SizeRule::AnyLength],
        Operation::Move => seq![SizeRule::AnyLength],
    }
}

/// The index rule of each operation.
pub open spec fn op_index_rule(op: Operation) -> IndexRule {
    match op {
        Operation::DerivePrivate => IndexRule::AnyIndex,
        Operation::DerivePublic => IndexRule::SoftOnly,
        _ => IndexRule::Unused,
    }
}

/// The size policy of each operation.
pub open spec fn op_size_policy(op: Operation) -> SizePolicy {
    match op {
        Operation::FromEnhancedEntropy => SizePolicy::Fixed(XPRV_SIZE),
        Operation::FromSeed => SizePolicy::Fixed(XPRV_SIZE),
        Operation::ToPublic => SizePolicy::Fixed(XPUB_SIZE),
        Operation::DerivePrivate => SizePolicy::Fixed(XPRV_SIZE),
        Operation::DerivePublic => SizePolicy::Fixed(XPUB_SIZE),
        Operation::Sign => SizePolicy::Fixed(SIGNATURE_SIZE),
        Operation::EncryptWithPassword => SizePolicy::PayloadPlus(CIPHER_OVERHEAD),
        Operation::DecryptWithPassword => SizePolicy::PayloadMinus(CIPHER_OVERHEAD),
        Operation::NewChecker => SizePolicy::Fixed(MAX_OUTPUT_SIZE),
        Operation::NewCheckerFromMnemonics => SizePolicy::Fixed(MAX_OUTPUT_SIZE),
        Operation::CheckAddresses => SizePolicy::PerItem {
            per_item: CHECK_ITEM_SIZE,
            overhead: 0,
        },
        Operation::FromMasterKey => SizePolicy::Fixed(MAX_OUTPUT_SIZE),
        Operation::FromDaedalusMnemonic => SizePolicy::Fixed(MAX_OUTPUT_SIZE),
        Operation::NewAccount => SizePolicy::Fixed(MAX_OUTPUT_SIZE),
        Operation::GenerateAddresses => SizePolicy::PerItem {
            per_item: ADDRESS_ITEM_SIZE,
            overhead: ADDRESS_LIST_OVERHEAD,
        },
        Operation::CheckAddress => SizePolicy::Fixed(MAX_OUTPUT_SIZE),
        Operation::Spend => SizePolicy::PerItem { per_item: TX_ITEM_SIZE, overhead: TX_OVERHEAD },
        Operation::Move => SizePolicy::PerItem { per_item: TX_ITEM_SIZE, overhead: TX_OVERHEAD },
    }
}

/// The result convention of each operation.
pub open spec fn op_convention(op: Operation) -> ResultConvention {
    match op {
        Operation::FromEnhancedEntropy => ResultConvention::StatusZero,
        Operation::FromSeed => ResultConvention::WritesExact,
        Operation::ToPublic => ResultConvention::WritesExact,
        Operation::DerivePrivate => ResultConvention::WritesExact,
        Operation::DerivePublic => ResultConvention::BoolFlag,
        Operation::Sign => ResultConvention::WritesExact,
        Operation::EncryptWithPassword => ResultConvention::ExactLen,
        Operation::DecryptWithPassword => ResultConvention::ExactLen,
        _ => ResultConvention::BoundedLen,
    }
}

/// The output encoding of each operation.
pub open spec fn op_encoding(op: Operation) -> OutputEncoding {
    match op {
        Operation::FromEnhancedEntropy => OutputEncoding::Binary,
        Operation::FromSeed => OutputEncoding::Binary,
        Operation::ToPublic => OutputEncoding::Binary,
        Operation::DerivePrivate => OutputEncoding::Binary,
        Operation::DerivePublic => OutputEncoding::Binary,
        Operation::Sign => OutputEncoding::Binary,
        Operation::EncryptWithPassword => OutputEncoding::Binary,
        Operation::DecryptWithPassword => OutputEncoding::Binary,
        _ => OutputEncoding::Text,
    }
}

/// Looks an operation up in the table.
pub fn contract_of(op: Operation) -> (c: OperationContract)
    ensures
        c.input_rules@ == op_input_rules(op),
        c.index_rule == op_index_rule(op),
        c.size_policy == op_size_policy(op),
        c.convention == op_convention(op),
        c.encoding == op_encoding(op),
{
    let input_rules = input_rules_of(op);
    let index_rule = match op {
        Operation::DerivePrivate => IndexRule::AnyIndex,
        Operation::DerivePublic => IndexRule::SoftOnly,
        _ => IndexRule::Unused,
    };
    let size_policy = match op {
        Operation::FromEnhancedEntropy => SizePolicy::Fixed(XPRV_SIZE),
        Operation::FromSeed => SizePolicy::Fixed(XPRV_SIZE),
        Operation::ToPublic => SizePolicy::Fixed(XPUB_SIZE),
        Operation::DerivePrivate => SizePolicy::Fixed(XPRV_SIZE),
        Operation::DerivePublic => SizePolicy::Fixed(XPUB_SIZE),
        Operation::Sign => SizePolicy::Fixed(SIGNATURE_SIZE),
        Operation::EncryptWithPassword => SizePolicy::PayloadPlus(CIPHER_OVERHEAD),
        Operation::DecryptWithPassword => SizePolicy::PayloadMinus(CIPHER_OVERHEAD),
        Operation::NewChecker => SizePolicy::Fixed(MAX_OUTPUT_SIZE),
        Operation::NewCheckerFromMnemonics => SizePolicy::Fixed(MAX_OUTPUT_SIZE),
        Operation::CheckAddresses => SizePolicy::PerItem {
            per_item: CHECK_ITEM_SIZE,
            overhead: 0,
        },
        Operation::FromMasterKey => SizePolicy::Fixed(MAX_OUTPUT_SIZE),
        Operation::FromDaedalusMnemonic => SizePolicy::Fixed(MAX_OUTPUT_SIZE),
        Operation::NewAccount => SizePolicy::Fixed(MAX_OUTPUT_SIZE),
        Operation::GenerateAddresses => SizePolicy::PerItem {
            per_item: ADDRESS_ITEM_SIZE,
            overhead: ADDRESS_LIST_OVERHEAD,
        },
        Operation::CheckAddress => SizePolicy::Fixed(MAX_OUTPUT_SIZE),
        Operation::Spend => SizePolicy::PerItem { per_item: TX_ITEM_SIZE, overhead: TX_OVERHEAD },
        Operation::Move => SizePolicy::PerItem { per_item: TX_ITEM_SIZE, overhead: TX_OVERHEAD },
    };
    let convention = match op {
        Operation::FromEnhancedEntropy => ResultConvention::StatusZero,
        Operation::FromSeed => ResultConvention::WritesExact,
        Operation::ToPublic => ResultConvention::WritesExact,
        Operation::DerivePrivate => ResultConvention::WritesExact,
        Operation::DerivePublic => ResultConvention::BoolFlag,
        Operation::Sign => ResultConvention::WritesExact,
        Operation::EncryptWithPassword => ResultConvention::ExactLen,
        Operation::DecryptWithPassword => ResultConvention::ExactLen,
        _ => ResultConvention::BoundedLen,
    };
    let encoding = match op {
        Operation::FromEnhancedEntropy => OutputEncoding::Binary,
        Operation::FromSeed => OutputEncoding::Binary,
        Operation::ToPublic => OutputEncoding::Binary,
        Operation::DerivePrivate => OutputEncoding::Binary,
        Operation::DerivePublic => OutputEncoding::Binary,
        Operation::Sign => OutputEncoding::Binary,
        Operation::EncryptWithPassword => OutputEncoding::Binary,
        Operation::DecryptWithPassword => OutputEncoding::Binary,
        _ => OutputEncoding::Text,
    };
    OperationContract { input_rules, index_rule, size_policy, convention, encoding }
}

/// Builds the input-rule list of one operation.
fn input_rules_of(op: Operation) -> (v: Vec<SizeRule>)
    ensures
        v@ == op_input_rules(op),
{
    let mut v: Vec<SizeRule> = Vec::new();
    match op {
        Operation::FromEnhancedEntropy => {
            v.push(SizeRule::AnyLength);
            v.push(SizeRule::AnyLength);
        },
        Operation::FromSeed => {
            v.push(SizeRule::Exactly(SEED_SIZE));
        },
        Operation::ToPublic => {
            v.push(SizeRule::Exactly(XPRV_SIZE));
        },
        Operation::DerivePrivate => {
            v.push(SizeRule::Exactly(XPRV_SIZE));
        },
        Operation::DerivePublic => {
            v.push(SizeRule::Exactly(XPUB_SIZE));
        },
        Operation::Sign => {
            v.push(SizeRule::Exactly(XPRV_SIZE));
            v.push(SizeRule::AnyLength);
        },
        Operation::EncryptWithPassword => {
            v.push(SizeRule::AnyLength);
            v.push(SizeRule::Exactly(SALT_SIZE));
            v.push(SizeRule::Exactly(NONCE_SIZE));
            v.push(SizeRule::AnyLength);
        },
        Operation::DecryptWithPassword => {
            v.push(SizeRule::AnyLength);
            v.push(SizeRule::AtLeast(MIN_CIPHERTEXT_SIZE));
        },
        _ => {
            v.push(SizeRule::AnyLength);
        },
    }
    proof {
        assert(v@ =~= op_input_rules(op));
    }
    v
}

} // verus!
