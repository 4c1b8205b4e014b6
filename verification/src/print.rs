//! Console output through the ROM's USB-serial/UART routines: bytes are sent
//! one at a time, and the output is flushed after every chunk.

use vstd::prelude::*;

verus! {

/// The ROM console.
pub struct Uart;

impl Uart {
    /// The most bytes sent between two flushes.
    pub const CHUNK_SIZE: usize = 32;
}

/// One call into the ROM console.
#[derive(Debug, Clone, Copy, PartialEq, Eq, Structural)]
pub enum UartOp {
    /// Send one byte.
    Tx(u8),
    /// Flush what was sent.
    Flush,
}

/// Sending each of `bytes` in turn.
pub open spec fn tx_ops(bytes: Seq<u8>) -> Seq<UartOp> {
    bytes.map_values(|b: u8| UartOp::Tx(b))
}

/// The calls that print `bytes`: each chunk of up to `CHUNK_SIZE` bytes, in
/// order, byte by byte, followed by a flush.
pub open spec fn print_ops(bytes: Seq<u8>) -> Seq<UartOp>
    decreases bytes.len(),
{
    if bytes.len() == 0 {
        Seq::empty()
    } else {
        let n = if bytes.len() < 32 {
            bytes.len() as int
        } else {
            32
        };
        tx_ops(bytes.take(n)).push(UartOp::Flush) + print_ops(
            bytes.skip(n),
        )
    }
}

/// The bytes that a sequence of calls sends.
pub open spec fn sent_bytes(ops: Seq<UartOp>) -> Seq<u8>
    decreases ops.len(),
{
    if ops.len() == 0 {
        Seq::empty()
    } else {
        match ops[0] {
            UartOp::Tx(b) => seq![b] + sent_bytes(ops.drop_first()),
            UartOp::Flush => sent_bytes(ops.drop_first()),
        }
    }
}

/// The number of flushes in a sequence of calls.
pub open spec fn flush_count(ops: Seq<UartOp>) -> nat
    decreases ops.len(),
{
    if ops.len() == 0 {
        0
    } else {
        (if ops[0] == UartOp::Flush {
            1nat
        } else {
            0nat
        }) + flush_count(ops.drop_first())
    }
}

proof fn lemma_sent_bytes_concat(a: Seq<UartOp>, b: Seq<UartOp>)
    ensures
        sent_bytes(a + b) == sent_bytes(a) + sent_bytes(b),
        flush_count(a + b) == flush_count(a) + flush_count(b),
    decreases a.len(),
{
    if a.len() == 0 {
        assert(a + b =~= b);
    } else {
        assert((a + b).drop_first() =~= a.drop_first() + b);
        lemma_sent_bytes_concat(a.drop_first(), b);
    }
}

proof fn lemma_chunk_ops(chunk: Seq<u8>)
    ensures
        sent_bytes(tx_ops(chunk).push(UartOp::Flush)) == chunk,
        flush_count(tx_ops(chunk).push(UartOp::Flush)) == 1,
    decreases chunk.len(),
{
    let ops = tx_ops(chunk).push(UartOp::Flush);
    if chunk.len() == 0 {
        assert(ops =~= seq![UartOp::Flush]);
        assert(ops.drop_first() =~= Seq::<UartOp>::empty());
        assert(sent_bytes(ops.drop_first()) == Seq::<u8>::empty());
        assert(flush_count(ops.drop_first()) == 0);
        assert(chunk =~= Seq::<u8>::empty());
    } else {
        let rest = chunk.drop_first();
        assert(ops[0] == UartOp::Tx(chunk[0]));
        assert(ops.drop_first() =~= tx_ops(rest).push(UartOp::Flush));
        lemma_chunk_ops(rest);
        assert(sent_bytes(ops) == seq![chunk[0]] + sent_bytes(ops.drop_first()));
        assert(chunk =~= seq![chunk[0]] + rest);
    }
}

/// Printing sends every byte, in order, and flushes once per chunk: after
/// every `CHUNK_SIZE` bytes and after the last one.
pub proof fn lemma_print_sends_all(bytes: Seq<u8>)
    ensures
        sent_bytes(print_ops(bytes)) == bytes,
        flush_count(print_ops(bytes)) == (bytes.len() + 31) / 32,
    decreases bytes.len(),
{
    if bytes.len() > 0 {
        let n = if bytes.len() < 32 {
            bytes.len() as int
        } else {
            32
        };
        let chunk_ops = tx_ops(bytes.take(n)).push(UartOp::Flush);
        lemma_chunk_ops(bytes.take(n));
        lemma_print_sends_all(bytes.skip(n));
        lemma_sent_bytes_concat(chunk_ops, print_ops(bytes.skip(n)));
        assert(bytes =~= bytes.take(n) + bytes.skip(n));
    }
}

/// Console output.
pub struct Printer;

impl Printer {
    /// The calls into the ROM console that print `bytes`.
    pub fn write_bytes(&mut self, bytes: &[u8]) -> (ops: Vec<UartOp>)
        ensures
            ops@ == print_ops(bytes@),
    {
        let mut ops: Vec<UartOp> = Vec::new();
        let len = bytes.len();
        let mut start: usize = 0;
        assert(ops@ + print_ops(bytes@.skip(0)) =~= print_ops(bytes@)) by {
            assert(bytes@.skip(0) =~= bytes@);
        }
        while start < len
            invariant
                len == bytes@.len(),
                start <= len,
                ops@ + print_ops(bytes@.skip(start as int)) == print_ops(bytes@),
            decreases len - start,
        {
            let end = if len - start < Uart::CHUNK_SIZE {
                len
            } else {
                start + Uart::CHUNK_SIZE
            };
            let ghost before = ops@;
            let ghost rest = bytes@.skip(start as int);
            let mut i = start;
            while i < end
                invariant
                    len == bytes@.len(),
                    start <= i <= end <= len,
                    ops@ == before + tx_ops(bytes@.subrange(start as int, i as int)),
                decreases end - i,
            {
                ops.push(UartOp::Tx(bytes[i]));
                i += 1;
                assert(bytes@.subrange(start as int, i as int) =~= bytes@.subrange(
                    start as int,
                    (i - 1) as int,
                ).push(bytes@[i - 1]));
            }
            ops.push(UartOp::Flush);
            proof {
                let n = (end - start) as int;
                assert(rest.take(n) =~= bytes@.subrange(start as int, end as int));
                assert(rest.skip(n) =~= bytes@.skip(end as int));
                assert(ops@ =~= before + tx_ops(rest.take(n)).push(
                    UartOp::Flush,
                ));
                assert(print_ops(rest) == tx_ops(rest.take(n)).push(
                    UartOp::Flush,
                ) + print_ops(rest.skip(n)));
                assert(ops@ + print_ops(bytes@.skip(end as int)) =~= before + print_ops(rest));
            }
            start = end;
        }
        assert(bytes@.skip(len as int) =~= Seq::<u8>::empty());
        assert(ops@ + print_ops(bytes@.skip(len as int)) =~= ops@);
        ops
    }
}

} // verus!
