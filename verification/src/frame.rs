//! The frame every request is sent in, and the trait that builds it.
use vstd::prelude::*;

verus! {

/// The check byte that closes every frame.
pub const CHECK_BYTE: u8 = 0x6B;

/// The bytes of a request to the driver at `addr`: the address, the op code,
/// the arguments, then the check byte.
pub open spec fn frame(addr: u8, op_code: u8, args: Seq<u8>) -> Seq<u8> {
    seq![addr, op_code] + args + seq![CHECK_BYTE]
}

/// A command that a driver understands.
pub trait DriverReq {
    /// The op code that names the command on the wire.
    const OP_CODE: u8;

    /// The op code as a value that contracts can read.
    spec fn op_code() -> u8;

    /// `OP_CODE` is the value that `op_code` names.
    proof fn lemma_op_code()
        ensures
            Self::OP_CODE == Self::op_code(),
    ;

    /// The argument bytes of this command, in the order they are sent.
    spec fn args(&self) -> Seq<u8>;

    /// Appends the argument bytes of this command to `buf`.
    fn write_args(&self, buf: &mut Vec<u8>)
        ensures
            final(buf)@ == old(buf)@ + self.args(),
    ;

    /// Builds the whole request frame for the driver at `addr`.
    fn make_req(&self, addr: u8) -> (req: Vec<u8>)
        ensures
            req@ == frame(addr, Self::op_code(), self.args()),
    {
        proof {
            Self::lemma_op_code();
        }
        let mut buf = vec![addr, Self::OP_CODE];
        assert(buf@ == seq![addr, Self::OP_CODE]);
        self.write_args(&mut buf);
        buf.push(CHECK_BYTE);
        assert(buf@ == frame(addr, Self::op_code(), self.args()));
        buf
    }
}

/// The layout of a frame: the address comes first, the op code second, the
/// check byte last, and the arguments fill exactly the bytes in between.
pub proof fn lemma_frame_layout(addr: u8, op_code: u8, args: Seq<u8>)
    ensures
        frame(addr, op_code, args).len() == args.len() + 3,
        frame(addr, op_code, args)[0] == addr,
        frame(addr, op_code, args)[1] == op_code,
        frame(addr, op_code, args).last() == CHECK_BYTE,
        frame(addr, op_code, args).subrange(2, args.len() + 2int) == args,
{
    assert(frame(addr, op_code, args).subrange(2, args.len() + 2int) =~= args);
}

/// A frame is read back unambiguously: two frames of the same length are
/// equal only when they carry the same address, op code and arguments.
pub proof fn lemma_frame_injective(a1: u8, op1: u8, args1: Seq<u8>, a2: u8, op2: u8, args2: Seq<u8>)
    requires
        frame(a1, op1, args1) == frame(a2, op2, args2),
    ensures
        a1 == a2,
        op1 == op2,
        args1 == args2,
{
    lemma_frame_layout(a1, op1, args1);
    lemma_frame_layout(a2, op2, args2);
}

} // verus!
