use vstd::prelude::*;
use vstd::string::StringSliceAdditionalSpecFns;

verus! {

/// An export sink that the tracer provider can be given.
#[derive(Clone, Copy, Debug, PartialEq, Eq, Structural)]
pub enum ExporterKind {
    /// Batched network export over OTLP.
    Otlp,
    /// Synchronous pretty-printed export to standard output.
    Console,
}

/// The ASCII comma that separates exporter names.
pub const COMMA: u8 = 0x2c;

/// The ASCII bytes of `otlp`.
pub open spec fn otlp_name() -> Seq<u8> {
    seq![0x6fu8, 0x74u8, 0x6cu8, 0x70u8]
}

/// The ASCII bytes of `console`.
pub open spec fn console_name() -> Seq<u8> {
    seq![0x63u8, 0x6fu8, 0x6eu8, 0x73u8, 0x6fu8, 0x6cu8, 0x65u8]
}

/// The comma-separated pieces of a byte string; there is always at least one.
pub open spec fn split_commas(b: Seq<u8>) -> Seq<Seq<u8>>
    decreases b.len(),
{
    if b.len() == 0 {
        seq![Seq::empty()]
    } else {
        let prev = split_commas(b.drop_last());
        if b.last() == COMMA {
            prev.push(Seq::empty())
        } else {
            prev.update(prev.len() - 1, prev.last().push(b.last()))
        }
    }
}

/// The exporter that one piece names, if it names one.
pub open spec fn exporter_of(piece: Seq<u8>) -> Option<ExporterKind> {
    if piece == otlp_name() {
        Some(ExporterKind::Otlp)
    } else if piece == console_name() {
        Some(ExporterKind::Console)
    } else {
        None
    }
}

/// The exporters that a list of pieces names, in order; other pieces are skipped.
pub open spec fn recognized(pieces: Seq<Seq<u8>>) -> Seq<ExporterKind>
    decreases pieces.len(),
{
    if pieces.len() == 0 {
        Seq::empty()
    } else {
        let rest = recognized(pieces.drop_last());
        match exporter_of(pieces.last()) {
            Some(k) => rest.push(k),
            None => rest,
        }
    }
}

fn classify(piece: &Vec<u8>) -> (r: Option<ExporterKind>)
    ensures
        r == exporter_of(piece@),
{
    let p = piece.as_slice();
    if p.len() == 4 && p[0] == 0x6f && p[1] == 0x74 && p[2] == 0x6c && p[3] == 0x70 {
        assert(piece@ =~= otlp_name());
        Some(ExporterKind::Otlp)
    } else if p.len() == 7 && p[0] == 0x63 && p[1] == 0x6f && p[2] == 0x6e && p[3] == 0x73 && p[4] == 0x6f
        && p[5] == 0x6c && p[6] == 0x65 {
        assert(piece@ =~= console_name());
        Some(ExporterKind::Console)
    } else {
        None
    }
}

/// The exporters that a comma-separated list of names selects, in order.
/// `otlp` and `console` are recognised; any other name, the empty one included, is skipped.
pub fn exporters_from_list(list: &str) -> (r: Vec<ExporterKind>)
    ensures
        r@ == recognized(split_commas(list.spec_bytes())),
{
    let bytes = list.as_bytes();
    let mut out: Vec<ExporterKind> = Vec::new();
    let mut piece: Vec<u8> = Vec::new();
    let mut i: usize = 0;
    proof {
        assert(bytes@.take(0) =~= Seq::<u8>::empty());
    }
    while i < bytes.len()
        invariant
            i <= bytes@.len(),
            bytes@ == list.spec_bytes(),
            split_commas(bytes@.take(i as int)).len() >= 1,
            piece@ == split_commas(bytes@.take(i as int)).last(),
            out@ == recognized(split_commas(bytes@.take(i as int)).drop_last()),
        decreases bytes@.len() - i,
    {
        let c = bytes[i];
        let ghost prev = split_commas(bytes@.take(i as int));
        proof {
            assert(bytes@.take(i as int + 1).drop_last() =~= bytes@.take(i as int));
        }
        if c == COMMA {
            match classify(&piece) {
                Some(k) => out.push(k),
                None => {},
            }
            piece = Vec::new();
            proof {
                assert(prev.push(Seq::<u8>::empty()).drop_last() =~= prev);
            }
        } else {
            piece.push(c);
            proof {
                let next = prev.update(prev.len() - 1, prev.last().push(c));
                assert(next.drop_last() =~= prev.drop_last());
            }
        }
        i = i + 1;
    }
    proof {
        assert(bytes@.take(i as int) =~= bytes@);
    }
    match classify(&piece) {
        Some(k) => out.push(k),
        None => {},
    }
    out
}

} // verus!
