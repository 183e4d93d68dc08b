//! The syscall-based host interface: the handler trait the host implements,
//! the values that cross it, and a test handler with fixed behaviours.

use crate::felt252::Felt252;
use vstd::prelude::*;

verus! {

/// Binary representation of a 256-bit unsigned integer (little endian).
#[derive(Debug, PartialEq)]
pub struct U256(pub [u8; 32]);

/// The block context a handler reports.
#[derive(Debug, PartialEq)]
pub struct BlockInfo {
    pub block_number: u64,
    pub block_timestamp: u64,
    pub sequencer_address: Felt252,
}

/// The transaction context a handler reports.
#[derive(Debug, PartialEq)]
pub struct TxInfo {
    pub version: Felt252,
    pub account_contract_address: Felt252,
    pub max_fee: u128,
    pub signature: Vec<Felt252>,
    pub transaction_hash: Felt252,
    pub chain_id: Felt252,
    pub nonce: Felt252,
}

/// The execution context a handler reports.
#[derive(Debug, PartialEq)]
pub struct ExecutionInfo {
    pub block_info: BlockInfo,
    pub tx_info: TxInfo,
    pub caller_address: Felt252,
    pub contract_address: Felt252,
    pub entry_point_selector: Felt252,
}

/// A point on the secp256k1 curve, as the handler reports it.
#[derive(Debug, PartialEq)]
pub struct Secp256k1Point {
}

/// A point on the secp256r1 curve, as the handler reports it.
#[derive(Debug, PartialEq)]
pub struct Secp256r1Point {
}

/// The host's syscall handler.  Each method may mutate the handler's own
/// state and the gas counter; an `Err` carries the panic payload the
/// compiled code surfaces on the error branch.
pub trait StarkNetSyscallHandler {
    fn get_block_hash(&mut self, block_number: u64, gas: &mut u128) -> Result<
        Felt252,
        Vec<Felt252>,
    >;

    fn get_execution_info(&mut self, gas: &mut u128) -> Result<ExecutionInfo, Vec<Felt252>>;

    fn deploy(
        &mut self,
        class_hash: Felt252,
        contract_address_salt: Felt252,
        calldata: &Vec<Felt252>,
        deploy_from_zero: bool,
        gas: &mut u128,
    ) -> Result<(Felt252, Vec<Felt252>), Vec<Felt252>>;

    fn replace_class(&mut self, class_hash: Felt252, gas: &mut u128) -> Result<(), Vec<Felt252>>;

    fn library_call(
        &mut self,
        class_hash: Felt252,
        function_selector: Felt252,
        calldata: &Vec<Felt252>,
        gas: &mut u128,
    ) -> Result<Vec<Felt252>, Vec<Felt252>>;

    fn call_contract(
        &mut self,
        address: Felt252,
        entry_point_selector: Felt252,
        calldata: &Vec<Felt252>,
        gas: &mut u128,
    ) -> Result<Vec<Felt252>, Vec<Felt252>>;

    fn storage_read(&mut self, address_domain: u32, address: Felt252, gas: &mut u128) -> Result<
        Felt252,
        Vec<Felt252>,
    >;

    fn storage_write(
        &mut self,
        address_domain: u32,
        address: Felt252,
        value: Felt252,
        gas: &mut u128,
    ) -> Result<(), Vec<Felt252>>;

    fn emit_event(&mut self, keys: &Vec<Felt252>, data: &Vec<Felt252>, gas: &mut u128) -> Result<
        (),
        Vec<Felt252>,
    >;

    fn send_message_to_l1(
        &mut self,
        to_address: Felt252,
        payload: &Vec<Felt252>,
        gas: &mut u128,
    ) -> Result<(), Vec<Felt252>>;

    fn keccak(&mut self, input: &Vec<u64>, gas: &mut u128) -> Result<U256, Vec<Felt252>>;
}

/// A syscall handler with fixed, easily recognisable behaviours, for tests.
#[derive(Debug)]
pub struct TestSyscallHandler;

impl StarkNetSyscallHandler for TestSyscallHandler {
    /// A short string marker.
    fn get_block_hash(&mut self, _block_number: u64, _gas: &mut u128) -> Result<
        Felt252,
        Vec<Felt252>,
    > {
        let mut marker: Vec<u8> = Vec::new();
        push_bytes_get_block_hash(&mut marker);
        if marker.len() <= 31 {
            Ok(crate::felt252::felt252_short_str(&marker))
        } else {
            Ok(Felt252::zero())
        }
    }

    /// Fixed context values.
    fn get_execution_info(&mut self, _gas: &mut u128) -> Result<ExecutionInfo, Vec<Felt252>> {
        let mut signature: Vec<Felt252> = Vec::new();
        signature.push(Felt252::from_u128(1248));
        signature.push(Felt252::from_u128(2486));
        Ok(
            ExecutionInfo {
                block_info: BlockInfo {
                    block_number: 1234,
                    block_timestamp: 2345,
                    sequencer_address: Felt252::from_u128(3456),
                },
                tx_info: TxInfo {
                    version: Felt252::from_u128(4567),
                    account_contract_address: Felt252::from_u128(5678),
                    max_fee: 6789,
                    signature,
                    transaction_hash: Felt252::from_u128(9876),
                    chain_id: Felt252::from_u128(8765),
                    nonce: Felt252::from_u128(7654),
                },
                caller_address: Felt252::from_u128(6543),
                contract_address: Felt252::from_u128(5432),
                entry_point_selector: Felt252::from_u128(4321),
            },
        )
    }

    /// The deployed address is `class_hash + salt`; the constructor output
    /// is each calldata felt plus one.
    fn deploy(
        &mut self,
        class_hash: Felt252,
        contract_address_salt: Felt252,
        calldata: &Vec<Felt252>,
        _deploy_from_zero: bool,
        _gas: &mut u128,
    ) -> Result<(Felt252, Vec<Felt252>), Vec<Felt252>> {
        let address = class_hash.add(&contract_address_salt);
        let one = Felt252::from_u128(1);
        let mut out: Vec<Felt252> = Vec::new();
        let mut i: usize = 0;
        while i < calldata.len()
            decreases calldata@.len() - i,
        {
            out.push(calldata[i].add(&one));
            i = i + 1;
        }
        Ok((address, out))
    }

    fn replace_class(&mut self, _class_hash: Felt252, _gas: &mut u128) -> Result<
        (),
        Vec<Felt252>,
    > {
        Ok(())
    }

    /// Each calldata felt times three.
    fn library_call(
        &mut self,
        _class_hash: Felt252,
        _function_selector: Felt252,
        calldata: &Vec<Felt252>,
        _gas: &mut u128,
    ) -> Result<Vec<Felt252>, Vec<Felt252>> {
        Ok(triple_all(calldata))
    }

    /// Each calldata felt times three.
    fn call_contract(
        &mut self,
        _address: Felt252,
        _entry_point_selector: Felt252,
        calldata: &Vec<Felt252>,
        _gas: &mut u128,
    ) -> Result<Vec<Felt252>, Vec<Felt252>> {
        Ok(triple_all(calldata))
    }

    /// The stored value is the address times three.
    fn storage_read(&mut self, _address_domain: u32, address: Felt252, _gas: &mut u128) -> Result<
        Felt252,
        Vec<Felt252>,
    > {
        let three = Felt252::from_u128(3);
        Ok(address.mul(&three))
    }

    fn storage_write(
        &mut self,
        _address_domain: u32,
        _address: Felt252,
        _value: Felt252,
        _gas: &mut u128,
    ) -> Result<(), Vec<Felt252>> {
        Ok(())
    }

    fn emit_event(
        &mut self,
        _keys: &Vec<Felt252>,
        _data: &Vec<Felt252>,
        _gas: &mut u128,
    ) -> Result<(), Vec<Felt252>> {
        Ok(())
    }

    fn send_message_to_l1(
        &mut self,
        _to_address: Felt252,
        _payload: &Vec<Felt252>,
        _gas: &mut u128,
    ) -> Result<(), Vec<Felt252>> {
        Ok(())
    }

    /// Charges a fixed fee and reports a fixed digest.
    fn keccak(&mut self, _input: &Vec<u64>, gas: &mut u128) -> Result<U256, Vec<Felt252>> {
        let fee: u128 = 1000;
        if *gas >= fee {
            *gas = *gas - fee;
        } else {
            *gas = 0;
        }
        let mut bytes = [0u8; 32];
        let digest: u64 = 1234567890;
        let le = u64_le_bytes(digest);
        let mut i: usize = 0;
        while i < 8
            invariant
                i <= 8,
                le@.len() == 8,
            decreases 8 - i,
        {
            bytes[i] = le[i];
            i = i + 1;
        }
        Ok(U256(bytes))
    }
}

/// Each felt of the list times three.
fn triple_all(felts: &Vec<Felt252>) -> (r: Vec<Felt252>)
    ensures
        r@.len() == felts@.len(),
{
    let three = Felt252::from_u128(3);
    let mut out: Vec<Felt252> = Vec::new();
    let mut i: usize = 0;
    while i < felts.len()
        invariant
            i <= felts@.len(),
            out@.len() == i,
        decreases felts@.len() - i,
    {
        out.push(felts[i].mul(&three));
        i = i + 1;
    }
    out
}

/// The little-endian bytes of a 64-bit integer.
fn u64_le_bytes(x: u64) -> (r: Vec<u8>)
    ensures
        r@.len() == 8,
{
    let mut out: Vec<u8> = Vec::new();
    let mut v = x;
    let mut i: usize = 0;
    while i < 8
        invariant
            i <= 8,
            out@.len() == i,
        decreases 8 - i,
    {
        out.push((v % 256) as u8);
        v = v / 256;
        i = i + 1;
    }
    out
}

/// The bytes of the block-hash marker string.
fn push_bytes_get_block_hash(out: &mut Vec<u8>)
    ensures
        final(out)@.len() == old(out)@.len() + 17,
{
    out.push(103u8);
    out.push(101u8);
    out.push(116u8);
    out.push(95u8);
    out.push(98u8);
    out.push(108u8);
    out.push(111u8);
    out.push(99u8);
    out.push(107u8);
    out.push(95u8);
    out.push(104u8);
    out.push(97u8);
    out.push(115u8);
    out.push(104u8);
    out.push(32u8);
    out.push(111u8);
    out.push(107u8);
}

} // verus!
