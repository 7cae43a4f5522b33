//! Codec for the ACPI method-argument buffers exchanged with the platform
//! firmware-evaluation call.
//!
//! The input buffer carries a method name plus up to seven type-tagged
//! arguments; the output buffer carries a variable-length list of
//! type-tagged argument records.  Both layouts are fixed by the firmware
//! ABI: all multi-byte integers are little-endian, the method name is a
//! fixed 256-byte zero-padded field, and every declared length must be
//! checked against the bytes actually present before it is trusted.

use vstd::bytes::{
    lemma_auto_spec_u16_to_from_le_bytes, lemma_auto_spec_u32_to_from_le_bytes,
    spec_u16_from_le_bytes, spec_u16_to_le_bytes, spec_u32_from_le_bytes, spec_u32_to_le_bytes,
    u16_from_le_bytes, u16_to_le_bytes, u32_from_le_bytes, u32_to_le_bytes,
};
use vstd::prelude::*;
use vstd::slice::{slice_subrange, slice_to_vec};
use vstd::string::StringSliceAdditionalSpecFns;

verus! {

/// Signature marker of a complex input buffer: the ASCII bytes `AeiF`
/// read as a little-endian `u32`.
pub const ACPI_EVAL_INPUT_BUFFER_COMPLEX_SIGNATURE_EX: u32 = 0x4669_6541;

/// Errors produced while building an input buffer or parsing an output
/// buffer.
#[derive(Clone, Copy, Debug, PartialEq, Eq, Structural)]
pub enum AcpiParseError {
    /// A declared `count` or `data_length` needs more bytes than the
    /// buffer holds.
    InsufficientLength,
    /// The fixed header is absent, or a string argument cannot be
    /// represented on the wire.
    InvalidFormat,
    /// More than the seven arguments the firmware accepts were supplied.
    TooManyArguments,
}

/// A user-friendly ACPI method argument.
#[derive(Clone, Copy, Debug)]
pub enum AcpiMethodArgument {
    /// Arbitrary u32 integer (DWORD)
    Int(u32),
    /// Arbitrary string; must not contain an embedded null byte
    Str(&'static str),
    /// 16-byte identifier (e.g. a GUID), in the byte order the caller chose
    Guid([u8; 16]),
}

/// A wire-level argument record: a 16-bit type tag, the 16-bit length of
/// the trailing payload, the redundant inline value used for integers,
/// and the payload bytes themselves.
#[derive(Debug)]
pub struct AcpiMethodArgumentV1 {
    pub type_: u16,
    pub data_length: u16,
    pub data_32: u32,
    pub data: Vec<u8>,
}

/// The type tag an argument maps to: 0 = integer, 1 = string, 2 = identifier.
pub open spec fn spec_wire_type(arg: AcpiMethodArgument) -> u16 {
    match arg {
        AcpiMethodArgument::Int(_) => 0u16,
        AcpiMethodArgument::Str(_) => 1u16,
        AcpiMethodArgument::Guid(_) => 2u16,
    }
}

/// The payload bytes an argument maps to: the little-endian bytes of an
/// integer, the string bytes followed by one null terminator, or the 16
/// identifier bytes unchanged.
pub open spec fn spec_wire_payload(arg: AcpiMethodArgument) -> Seq<u8> {
    match arg {
        AcpiMethodArgument::Int(v) => spec_u32_to_le_bytes(v),
        AcpiMethodArgument::Str(s) => s.spec_bytes() + seq![0u8],
        AcpiMethodArgument::Guid(g) => g@,
    }
}

/// The redundant inline value: the integer itself for `Int`, zero otherwise.
pub open spec fn spec_wire_inline(arg: AcpiMethodArgument) -> u32 {
    match arg {
        AcpiMethodArgument::Int(v) => v,
        _ => 0u32,
    }
}

/// Whether an argument can be put on the wire: a string must be free of
/// embedded null bytes and, with its terminator, fit a 16-bit length.
pub open spec fn spec_arg_valid(arg: AcpiMethodArgument) -> bool {
    match arg {
        AcpiMethodArgument::Str(s) => !s.spec_bytes().contains(0u8) && s.spec_bytes().len() + 1
            <= 0xFFFF,
        _ => true,
    }
}

/// Whether a wire record is exactly the encoding of a user-level argument.
pub open spec fn spec_arg_matches(w: AcpiMethodArgumentV1, a: AcpiMethodArgument) -> bool {
    &&& w.type_ == spec_wire_type(a)
    &&& w.data_length == spec_wire_payload(a).len()
    &&& w.data_32 == spec_wire_inline(a)
    &&& w.data@ == spec_wire_payload(a)
}

/// The fixed-size method-name field: the first 256 name bytes, padded
/// with zero bytes if the name is shorter and truncated if it is longer.
pub open spec fn spec_name_field(name_bytes: Seq<u8>) -> Seq<u8> {
    Seq::new(256, |i: int| if i < name_bytes.len() { name_bytes[i] } else { 0u8 })
}

/// The arguments an encoding call was given: the supplied slice, or the
/// empty sequence when none were supplied.
pub open spec fn spec_opt_args(args: Option<&[AcpiMethodArgument]>) -> Seq<AcpiMethodArgument> {
    match args {
        Some(s) => s@,
        None => Seq::<AcpiMethodArgument>::empty(),
    }
}

/// Sum of the payload lengths of all arguments; the `total_payload_size`
/// header field holds exactly this sum.
pub open spec fn spec_total_size(args: Seq<AcpiMethodArgument>) -> int
    decreases args.len(),
{
    if args.len() == 0 {
        0
    } else {
        spec_wire_payload(args[0]).len() + spec_total_size(args.drop_first())
    }
}

/// The bytes one wire record contributes to the input buffer: 2-byte type
/// tag, 2-byte data length, then the raw payload.  The inline value is
/// not written in the input wire form.
pub open spec fn spec_arg_bytes(w: AcpiMethodArgumentV1) -> Seq<u8> {
    spec_u16_to_le_bytes(w.type_) + spec_u16_to_le_bytes(w.data_length) + w.data@
}

/// The concatenated wire records of a sequence of argument records.
pub open spec fn spec_args_bytes(ws: Seq<AcpiMethodArgumentV1>) -> Seq<u8>
    decreases ws.len(),
{
    if ws.len() == 0 {
        Seq::<u8>::empty()
    } else {
        spec_arg_bytes(ws[0]) + spec_args_bytes(ws.drop_first())
    }
}

/// The flat byte image of a structured input buffer.
pub open spec fn spec_input_bytes(ib: AcpiEvalInputBufferComplexV1Ex) -> Seq<u8> {
    spec_u32_to_le_bytes(ib.signature) + ib.methodname@ + spec_u32_to_le_bytes(ib.size)
        + spec_u32_to_le_bytes(ib.argumentcount) + spec_args_bytes(ib.arguments@)
}

/// The input-buffer wire record of one user-level argument.
pub open spec fn spec_arg_record(a: AcpiMethodArgument) -> Seq<u8> {
    spec_u16_to_le_bytes(spec_wire_type(a)) + spec_u16_to_le_bytes(
        spec_wire_payload(a).len() as u16,
    ) + spec_wire_payload(a)
}

/// The concatenated input-buffer wire records of a sequence of user-level
/// arguments.
pub open spec fn spec_args_wire_bytes(args: Seq<AcpiMethodArgument>) -> Seq<u8>
    decreases args.len(),
{
    if args.len() == 0 {
        Seq::<u8>::empty()
    } else {
        spec_arg_record(args[0]) + spec_args_wire_bytes(args.drop_first())
    }
}

/// Whether an argument list can be encoded at all: at most seven
/// arguments, each individually representable.
pub open spec fn spec_encode_ok(args: Seq<AcpiMethodArgument>) -> bool {
    args.len() <= 7 && forall|i: int| 0 <= i < args.len() ==> spec_arg_valid(#[trigger] args[i])
}

/// The complete byte image `encode` produces for a method name and
/// argument list: signature, 256-byte name field, total payload size,
/// argument count, then the argument records.
pub open spec fn spec_encode_bytes(name_bytes: Seq<u8>, args: Seq<AcpiMethodArgument>) -> Seq<
    u8,
> {
    spec_u32_to_le_bytes(ACPI_EVAL_INPUT_BUFFER_COMPLEX_SIGNATURE_EX) + spec_name_field(name_bytes)
        + spec_u32_to_le_bytes(spec_total_size(args) as u32) + spec_u32_to_le_bytes(
        args.len() as u32,
    ) + spec_args_wire_bytes(args)
}

proof fn lemma_total_size_push(args: Seq<AcpiMethodArgument>, a: AcpiMethodArgument)
    ensures
        spec_total_size(args.push(a)) == spec_total_size(args) + spec_wire_payload(a).len(),
    decreases args.len(),
{
    reveal_with_fuel(spec_total_size, 3);
    if args.len() == 0 {
        assert(args.push(a)[0] == a);
        assert(args.push(a).drop_first() =~= Seq::<AcpiMethodArgument>::empty());
    } else {
        assert(args.push(a)[0] == args[0]);
        assert(args.push(a).drop_first() =~= args.drop_first().push(a));
        lemma_total_size_push(args.drop_first(), a);
    }
}

proof fn lemma_args_bytes_push(ws: Seq<AcpiMethodArgumentV1>, w: AcpiMethodArgumentV1)
    ensures
        spec_args_bytes(ws.push(w)) == spec_args_bytes(ws) + spec_arg_bytes(w),
    decreases ws.len(),
{
    reveal_with_fuel(spec_args_bytes, 3);
    if ws.len() == 0 {
        assert(ws.push(w)[0] == w);
        assert(ws.push(w).drop_first() =~= Seq::<AcpiMethodArgumentV1>::empty());
        assert(spec_args_bytes(ws.push(w)) =~= spec_args_bytes(ws) + spec_arg_bytes(w));
    } else {
        assert(ws.push(w)[0] == ws[0]);
        assert(ws.push(w).drop_first() =~= ws.drop_first().push(w));
        lemma_args_bytes_push(ws.drop_first(), w);
        assert(spec_args_bytes(ws.push(w)) =~= spec_args_bytes(ws) + spec_arg_bytes(w));
    }
}

/// The wire records of matching record/argument sequences are the same
/// bytes.
proof fn lemma_args_bytes_bridge(ws: Seq<AcpiMethodArgumentV1>, args: Seq<AcpiMethodArgument>)
    requires
        ws.len() == args.len(),
        forall|i: int| 0 <= i < ws.len() ==> spec_arg_matches(#[trigger] ws[i], args[i]),
    ensures
        spec_args_bytes(ws) == spec_args_wire_bytes(args),
    decreases ws.len(),
{
    if ws.len() > 0 {
        assert(spec_arg_matches(ws[0], args[0]));
        assert(ws[0].data_length == spec_wire_payload(args[0]).len() as u16);
        assert(spec_arg_bytes(ws[0]) == spec_arg_record(args[0]));
        assert(forall|i: int|
            0 <= i < ws.drop_first().len() ==> spec_arg_matches(
                #[trigger] ws.drop_first()[i],
                args.drop_first()[i],
            ));
        lemma_args_bytes_bridge(ws.drop_first(), args.drop_first());
    }
}

/// Length of the argument region: four header bytes per record plus the
/// total payload size.
proof fn lemma_args_wire_bytes_len(args: Seq<AcpiMethodArgument>)
    ensures
        spec_args_wire_bytes(args).len() == 4 * args.len() + spec_total_size(args),
        spec_total_size(args) >= 0,
    decreases args.len(),
{
    lemma_auto_spec_u16_to_from_le_bytes();
    if args.len() > 0 {
        lemma_args_wire_bytes_len(args.drop_first());
    }
}

/// Append the bytes of a slice to a byte vector.
fn push_bytes(buf: &mut Vec<u8>, bytes: &[u8])
    ensures
        final(buf)@ == old(buf)@ + bytes@,
{
    let mut i: usize = 0;
    while i < bytes.len()
        invariant
            i <= bytes@.len(),
            buf@ == old(buf)@ + bytes@.take(i as int),
        decreases bytes@.len() - i,
    {
        buf.push(bytes[i]);
        proof {
            assert(old(buf)@ + bytes@.take(i as int) + seq![bytes@[i as int]] =~= old(buf)@
                + bytes@.take(i as int + 1));
        }
        i += 1;
    }
    proof {
        assert(old(buf)@ + bytes@.take(bytes@.len() as int) =~= old(buf)@ + bytes@);
    }
}

impl AcpiMethodArgumentV1 {
    /// Convert a user-friendly argument to the wire-level record, failing
    /// exactly when the argument cannot be represented.
    pub fn from_argument(arg: AcpiMethodArgument) -> (r: Result<Self, AcpiParseError>)
        ensures
            r is Ok <==> spec_arg_valid(arg),
            r matches Ok(w) ==> spec_arg_matches(w, arg),
            r matches Err(e) ==> e == AcpiParseError::InvalidFormat,
    {
        match arg {
            AcpiMethodArgument::Guid(g) => {
                let data = slice_to_vec(g.as_slice());
                Ok(AcpiMethodArgumentV1 { type_: 2, data_length: 16, data_32: 0, data })
            },
            AcpiMethodArgument::Str(s) => {
                let bytes = s.as_bytes();
                if bytes.len() > 0xFFFE {
                    return Err(AcpiParseError::InvalidFormat);
                }
                let mut i: usize = 0;
                while i < bytes.len()
                    invariant
                        arg == AcpiMethodArgument::Str(s),
                        i <= bytes@.len(),
                        bytes@ == s.spec_bytes(),
                        bytes@.len() <= 0xFFFE,
                        forall|j: int| 0 <= j < i ==> bytes@[j] != 0u8,
                    decreases bytes@.len() - i,
                {
                    if bytes[i] == 0 {
                        assert(s.spec_bytes().contains(0u8));
                        return Err(AcpiParseError::InvalidFormat);
                    }
                    i += 1;
                }
                assert(!s.spec_bytes().contains(0u8));
                let mut data = slice_to_vec(bytes);
                data.push(0);
                assert(data@ == s.spec_bytes() + seq![0u8]);
                Ok(
                    AcpiMethodArgumentV1 {
                        type_: 1,
                        data_length: (bytes.len() + 1) as u16,
                        data_32: 0,
                        data,
                    },
                )
            },
            AcpiMethodArgument::Int(v) => {
                let data = u32_to_le_bytes(v);
                Ok(AcpiMethodArgumentV1 { type_: 0, data_length: 4, data_32: v, data })
            },
        }
    }
}

/// A structured input buffer: what the flat input byte sequence is built
/// from.  `methodname` always holds exactly 256 bytes.
#[derive(Debug)]
pub struct AcpiEvalInputBufferComplexV1Ex {
    pub signature: u32,
    pub methodname: Vec<u8>,
    pub size: u32,
    pub argumentcount: u32,
    pub arguments: Vec<AcpiMethodArgumentV1>,
}

impl AcpiEvalInputBufferComplexV1Ex {
    /// Build the structured input buffer for a method name and up to
    /// seven arguments, converting each argument in order.
    pub fn build(name: &str, args: Option<&[AcpiMethodArgument]>) -> (r: Result<
        Self,
        AcpiParseError,
    >)
        ensures
            r is Ok <==> spec_encode_ok(spec_opt_args(args)),
            r matches Ok(ib) ==> ({
                &&& ib.signature == ACPI_EVAL_INPUT_BUFFER_COMPLEX_SIGNATURE_EX
                &&& ib.methodname@ == spec_name_field(name.spec_bytes())
                &&& ib.size == spec_total_size(spec_opt_args(args))
                &&& ib.argumentcount == spec_opt_args(args).len()
                &&& ib.arguments@.len() == spec_opt_args(args).len()
                &&& forall|i: int|
                    0 <= i < spec_opt_args(args).len() ==> spec_arg_matches(
                        #[trigger] ib.arguments@[i],
                        spec_opt_args(args)[i],
                    )
            }),
            r matches Err(e) ==> e == (if spec_opt_args(args).len() > 7 {
                AcpiParseError::TooManyArguments
            } else {
                AcpiParseError::InvalidFormat
            }),
    {
        let mut arguments: Vec<AcpiMethodArgumentV1> = Vec::new();
        let mut size: u32 = 0;
        if let Some(aslice) = args {
            // Maximum number of arguments allowed is 7 as per the firmware ABI
            if aslice.len() > 7 {
                return Err(AcpiParseError::TooManyArguments);
            }
            let mut i: usize = 0;
            while i < aslice.len()
                invariant
                    spec_opt_args(args) == aslice@,
                    aslice@.len() <= 7,
                    i <= aslice@.len(),
                    arguments@.len() == i,
                    size as int == spec_total_size(aslice@.take(i as int)),
                    size <= i * 0x10000,
                    forall|j: int| 0 <= j < i ==> spec_arg_valid(#[trigger] aslice@[j]),
                    forall|j: int|
                        0 <= j < i ==> spec_arg_matches(#[trigger] arguments@[j], aslice@[j]),
                decreases aslice@.len() - i,
            {
                let a = aslice[i];
                match AcpiMethodArgumentV1::from_argument(a) {
                    Ok(w) => {
                        proof {
                            assert(aslice@.take(i as int + 1) =~= aslice@.take(i as int).push(
                                aslice@[i as int],
                            ));
                            lemma_total_size_push(aslice@.take(i as int), aslice@[i as int]);
                        }
                        size = size + (w.data_length as u32);
                        arguments.push(w);
                    },
                    Err(e) => {
                        return Err(e);
                    },
                }
                i += 1;
            }
            proof {
                assert(aslice@.take(aslice@.len() as int) =~= aslice@);
            }
        }
        let name_bytes = name.as_bytes();
        let mut methodname: Vec<u8> = Vec::new();
        let mut k: usize = 0;
        while k < 256
            invariant
                k <= 256,
                methodname@.len() == k,
                name_bytes@ == name.spec_bytes(),
                forall|j: int|
                    0 <= j < k ==> methodname@[j] == spec_name_field(name.spec_bytes())[j],
            decreases 256 - k,
        {
            if k < name_bytes.len() {
                let b = name_bytes[k];
                methodname.push(b);
            } else {
                methodname.push(0);
            }
            k += 1;
        }
        proof {
            assert(methodname@ =~= spec_name_field(name.spec_bytes()));
        }
        let argumentcount = arguments.len() as u32;
        Ok(
            AcpiEvalInputBufferComplexV1Ex {
                signature: ACPI_EVAL_INPUT_BUFFER_COMPLEX_SIGNATURE_EX,
                methodname,
                size,
                argumentcount,
                arguments,
            },
        )
    }

    /// Flatten the structured input buffer to the exact byte sequence the
    /// evaluation call consumes.
    pub fn to_bytes(&self) -> (r: Vec<u8>)
        ensures
            r@ == spec_input_bytes(*self),
    {
        let mut buf: Vec<u8> = Vec::new();
        let sig = u32_to_le_bytes(self.signature);
        push_bytes(&mut buf, sig.as_slice());
        push_bytes(&mut buf, self.methodname.as_slice());
        let size = u32_to_le_bytes(self.size);
        push_bytes(&mut buf, size.as_slice());
        let count = u32_to_le_bytes(self.argumentcount);
        push_bytes(&mut buf, count.as_slice());
        let ghost header = buf@;
        let mut i: usize = 0;
        while i < self.arguments.len()
            invariant
                i <= self.arguments@.len(),
                header == spec_u32_to_le_bytes(self.signature) + self.methodname@
                    + spec_u32_to_le_bytes(self.size) + spec_u32_to_le_bytes(self.argumentcount),
                buf@ == header + spec_args_bytes(self.arguments@.take(i as int)),
            decreases self.arguments@.len() - i,
        {
            let w = &self.arguments[i];
            let t = u16_to_le_bytes(w.type_);
            push_bytes(&mut buf, t.as_slice());
            let l = u16_to_le_bytes(w.data_length);
            push_bytes(&mut buf, l.as_slice());
            push_bytes(&mut buf, w.data.as_slice());
            proof {
                assert(self.arguments@.take(i as int + 1) =~= self.arguments@.take(i as int).push(
                    self.arguments@[i as int],
                ));
                lemma_args_bytes_push(self.arguments@.take(i as int), self.arguments@[i as int]);
                assert(buf@ =~= header + spec_args_bytes(self.arguments@.take(i as int + 1)));
            }
            i += 1;
        }
        proof {
            assert(self.arguments@.take(self.arguments@.len() as int) =~= self.arguments@);
            assert(buf@ =~= spec_input_bytes(*self));
        }
        buf
    }
}

/// A wire record reduced to its abstract values: type tag, declared
/// payload length, inline value, payload bytes.
pub open spec fn spec_arg_model(w: AcpiMethodArgumentV1) -> (u16, u16, u32, Seq<u8>) {
    (w.type_, w.data_length, w.data_32, w.data@)
}

/// Parse `count` output-buffer argument records starting at `offset`.
/// Each record needs at least 8 bytes for its tag, length and inline
/// value; the payload begins 4 bytes into the record, overlapping the
/// inline-value slot.  `None` means the declared counts or lengths need
/// more bytes than the buffer holds.
pub open spec fn spec_parse_args(bytes: Seq<u8>, offset: int, count: nat) -> Option<
    Seq<(u16, u16, u32, Seq<u8>)>,
>
    decreases count,
{
    if count == 0 {
        Some(Seq::<(u16, u16, u32, Seq<u8>)>::empty())
    } else if offset + 8 > bytes.len() {
        None
    } else {
        let t = spec_u16_from_le_bytes(bytes.subrange(offset, offset + 2));
        let dl16 = spec_u16_from_le_bytes(bytes.subrange(offset + 2, offset + 4));
        let inline = if t == 0 {
            spec_u32_from_le_bytes(bytes.subrange(offset + 4, offset + 8))
        } else {
            0u32
        };
        if offset + 4 + dl16 > bytes.len() {
            None
        } else {
            match spec_parse_args(bytes, offset + 4 + dl16, (count - 1) as nat) {
                None => None,
                Some(rest) => Some(
                    seq![(t, dl16, inline, bytes.subrange(offset + 4, offset + 4 + dl16))] + rest,
                ),
            }
        }
    }
}

/// A structured output buffer: what a successful decode of the
/// evaluation call's raw response yields.  After a successful decode,
/// `arguments` holds exactly `count` records.
#[derive(Debug)]
pub struct AcpiEvalOutputBufferV1 {
    pub signature: u32,
    pub length: u32,
    pub count: u32,
    pub arguments: Vec<AcpiMethodArgumentV1>,
}

impl AcpiEvalOutputBufferV1 {
    /// Parse the raw response bytes into a structured output buffer,
    /// trusting no declared length over the bytes actually present.
    pub fn decode(bytes: &[u8]) -> (r: Result<Self, AcpiParseError>)
        ensures
            r is Ok <==> (bytes@.len() >= 12 && spec_parse_args(
                bytes@,
                12,
                spec_u32_from_le_bytes(bytes@.subrange(8, 12)) as nat,
            ) is Some),
            r matches Ok(out) ==> ({
                &&& out.signature == spec_u32_from_le_bytes(bytes@.subrange(0, 4))
                &&& out.length == spec_u32_from_le_bytes(bytes@.subrange(4, 8))
                &&& out.count == spec_u32_from_le_bytes(bytes@.subrange(8, 12))
                &&& out.arguments@.len() == out.count
                &&& out.arguments@.map_values(|w: AcpiMethodArgumentV1| spec_arg_model(w))
                    == spec_parse_args(bytes@, 12, out.count as nat)->Some_0
            }),
            r matches Err(e) ==> (e == AcpiParseError::InvalidFormat <==> bytes@.len() < 12),
            r matches Err(e) ==> (e == AcpiParseError::InsufficientLength <==> (bytes@.len() >= 12
                && spec_parse_args(
                bytes@,
                12,
                spec_u32_from_le_bytes(bytes@.subrange(8, 12)) as nat,
            ) is None)),
    {
        if bytes.len() < 12 {
            return Err(AcpiParseError::InvalidFormat);
        }
        let signature = u32_from_le_bytes(slice_subrange(bytes, 0, 4));
        let length = u32_from_le_bytes(slice_subrange(bytes, 4, 8));
        let count = u32_from_le_bytes(slice_subrange(bytes, 8, 12));

        let mut offset: usize = 12;
        let mut arguments: Vec<AcpiMethodArgumentV1> = Vec::new();
        let mut i: u32 = 0;
        while i < count
            invariant
                bytes@.len() >= 12,
                12 <= offset <= bytes@.len(),
                i <= count,
                arguments@.len() == i,
                count == spec_u32_from_le_bytes(bytes@.subrange(8, 12)),
                ({
                    let whole = spec_parse_args(bytes@, 12, count as nat);
                    let rest = spec_parse_args(bytes@, offset as int, (count - i) as nat);
                    match rest {
                        None => whole is None,
                        Some(restm) => whole == Some(
                            arguments@.map_values(|w: AcpiMethodArgumentV1| spec_arg_model(w))
                                + restm,
                        ),
                    }
                }),
            decreases count - i,
        {
            if bytes.len() - offset < 8 {
                return Err(AcpiParseError::InsufficientLength);
            }
            let type_ = u16_from_le_bytes(slice_subrange(bytes, offset, offset + 2));
            let data_length_u16 = u16_from_le_bytes(slice_subrange(bytes, offset + 2, offset + 4));
            let data_length = data_length_u16 as usize;
            let data_32 = if type_ == 0 {
                u32_from_le_bytes(slice_subrange(bytes, offset + 4, offset + 8))
            } else {
                0
            };
            let payload_start = offset + 4;
            if bytes.len() - payload_start < data_length {
                return Err(AcpiParseError::InsufficientLength);
            }
            let data = slice_to_vec(
                slice_subrange(bytes, payload_start, payload_start + data_length),
            );
            let ghost old_models = arguments@.map_values(
                |w: AcpiMethodArgumentV1| spec_arg_model(w),
            );
            let w = AcpiMethodArgumentV1 { type_, data_length: data_length_u16, data_32, data };
            arguments.push(w);
            proof {
                let rest = spec_parse_args(bytes@, offset as int, (count - i) as nat);
                let rest2 = spec_parse_args(
                    bytes@,
                    offset as int + 4 + data_length_u16 as int,
                    (count - i - 1) as nat,
                );
                assert(arguments@.map_values(|w: AcpiMethodArgumentV1| spec_arg_model(w))
                    =~= old_models.push(spec_arg_model(w)));
                if rest2 is Some {
                    assert(old_models + (seq![spec_arg_model(w)] + rest2->Some_0)
                        =~= old_models.push(spec_arg_model(w)) + rest2->Some_0);
                }
            }
            offset = payload_start + data_length;
            i += 1;
        }
        proof {
            let models = arguments@.map_values(|w: AcpiMethodArgumentV1| spec_arg_model(w));
            assert(models + Seq::<(u16, u16, u32, Seq<u8>)>::empty() =~= models);
        }
        Ok(AcpiEvalOutputBufferV1 { signature, length, count, arguments })
    }
}

/// The abstract values a re-parse of an encoded argument must recover:
/// its type tag, its payload length, its inline value, and its payload.
pub open spec fn spec_arg_model_of(a: AcpiMethodArgument) -> (u16, u16, u32, Seq<u8>) {
    (
        spec_wire_type(a),
        spec_wire_payload(a).len() as u16,
        spec_wire_inline(a),
        spec_wire_payload(a),
    )
}

proof fn lemma_parse_wire_args(b: Seq<u8>, off: int, args: Seq<AcpiMethodArgument>, pad_len: int)
    requires
        0 <= off,
        0 <= pad_len,
        args.len() == 0 || spec_wire_payload(args.last()).len() + pad_len >= 4,
        forall|i: int| 0 <= i < args.len() ==> spec_arg_valid(#[trigger] args[i]),
        b.len() == off + spec_args_wire_bytes(args).len() + pad_len,
        b.subrange(off, off + spec_args_wire_bytes(args).len()) == spec_args_wire_bytes(args),
    ensures
        spec_parse_args(b, off, args.len() as nat) == Some(
            args.map_values(|a: AcpiMethodArgument| spec_arg_model_of(a)),
        ),
    decreases args.len(),
{
    lemma_auto_spec_u16_to_from_le_bytes();
    lemma_auto_spec_u32_to_from_le_bytes();
    if args.len() == 0 {
        assert(args.map_values(|a: AcpiMethodArgument| spec_arg_model_of(a)) =~= Seq::<
            (u16, u16, u32, Seq<u8>),
        >::empty());
    } else {
        let a0 = args[0];
        let tail = args.drop_first();
        let rec = spec_arg_record(a0);
        let wb = spec_args_wire_bytes(args);
        let rest_wb = spec_args_wire_bytes(tail);
        let t = spec_wire_type(a0);
        let payload = spec_wire_payload(a0);
        let dl = payload.len() as int;
        assert(payload.len() <= 0xFFFF) by {
            assert(spec_arg_valid(a0));
        }
        assert(wb == rec + rest_wb);
        assert(wb.len() == rec.len() + rest_wb.len());
        assert(rec == (spec_u16_to_le_bytes(t) + spec_u16_to_le_bytes(payload.len() as u16))
            + payload);
        assert(spec_u16_to_le_bytes(t).len() == 2);
        assert(spec_u16_to_le_bytes(payload.len() as u16).len() == 2);
        assert(rec.len() == 4 + dl);
        assert forall|k: int| 0 <= k < wb.len() implies b[off + k] == #[trigger] wb[k] by {
            assert(b.subrange(off, off + wb.len() as int)[k] == b[off + k]);
        }
        if tail.len() == 0 {
            // The last record's payload plus the trailing bytes cover the
            // 8 bytes the parser demands for tag, length and inline value.
            assert(args.last() == a0);
            assert(rest_wb.len() == 0);
        } else {
            lemma_args_wire_bytes_len(tail);
            assert(rest_wb.len() >= 4);
        }
        assert(off + 8 <= b.len());
        assert forall|m: int| 0 <= m < 2 implies b.subrange(off, off + 2)[m]
            == spec_u16_to_le_bytes(t)[m] by {
            assert(b.subrange(off, off + 2)[m] == b[off + m]);
            assert(wb[m] == b[off + m]);
            assert((rec + rest_wb)[m] == rec[m]);
            assert(((spec_u16_to_le_bytes(t) + spec_u16_to_le_bytes(payload.len() as u16))
                + payload)[m] == (spec_u16_to_le_bytes(t) + spec_u16_to_le_bytes(
                payload.len() as u16,
            ))[m]);
            assert((spec_u16_to_le_bytes(t) + spec_u16_to_le_bytes(payload.len() as u16))[m]
                == spec_u16_to_le_bytes(t)[m]);
        }
        assert(b.subrange(off, off + 2) =~= spec_u16_to_le_bytes(t));
        assert forall|m: int| 0 <= m < 2 implies #[trigger] b.subrange(off + 2, off + 4)[m]
            == spec_u16_to_le_bytes(payload.len() as u16)[m] by {
            assert(b.subrange(off + 2, off + 4)[m] == b[off + 2 + m]);
            assert(wb[2 + m] == b[off + (2 + m)]);
            assert((rec + rest_wb)[2 + m] == rec[2 + m]);
            assert(((spec_u16_to_le_bytes(t) + spec_u16_to_le_bytes(payload.len() as u16))
                + payload)[2 + m] == (spec_u16_to_le_bytes(t) + spec_u16_to_le_bytes(
                payload.len() as u16,
            ))[2 + m]);
            assert((spec_u16_to_le_bytes(t) + spec_u16_to_le_bytes(payload.len() as u16))[2 + m]
                == spec_u16_to_le_bytes(payload.len() as u16)[m]);
        }
        assert(b.subrange(off + 2, off + 4) =~= spec_u16_to_le_bytes(payload.len() as u16));
        assert(spec_u16_from_le_bytes(b.subrange(off, off + 2)) == t);
        assert(spec_u16_from_le_bytes(b.subrange(off + 2, off + 4)) == payload.len() as u16);
        assert(payload.len() as u16 as int == dl);
        assert(off + 4 + dl <= b.len());
        assert forall|m: int| 0 <= m < dl implies b.subrange(off + 4, off + 4 + dl)[m]
            == payload[m] by {
            assert(b.subrange(off + 4, off + 4 + dl)[m] == b[off + 4 + m]);
            assert(wb[4 + m] == b[off + (4 + m)]);
            assert((rec + rest_wb)[4 + m] == rec[4 + m]);
            assert(((spec_u16_to_le_bytes(t) + spec_u16_to_le_bytes(payload.len() as u16))
                + payload)[4 + m] == payload[m]);
        }
        assert(b.subrange(off + 4, off + 4 + dl) =~= payload);
        if t == 0 {
            match a0 {
                AcpiMethodArgument::Int(v) => {
                    assert(payload == spec_u32_to_le_bytes(v));
                    assert(dl == 4);
                    assert(b.subrange(off + 4, off + 8) == b.subrange(off + 4, off + 4 + dl));
                    assert(spec_u32_from_le_bytes(b.subrange(off + 4, off + 8))
                        == spec_wire_inline(a0));
                },
                _ => {
                    assert(false);
                },
            }
        }
        let off2 = off + 4 + dl;
        assert forall|m: int| 0 <= m < rest_wb.len() implies b.subrange(
            off2,
            off2 + rest_wb.len() as int,
        )[m] == rest_wb[m] by {
            assert((rec + rest_wb)[rec.len() + m] == rest_wb[m]);
            assert(wb[rec.len() + m] == b[off + (rec.len() + m)]);
            assert(b.subrange(off2, off2 + rest_wb.len() as int)[m] == b[off2 + m]);
        }
        assert(b.subrange(off2, off2 + rest_wb.len() as int) =~= rest_wb);
        assert forall|i: int| 0 <= i < tail.len() implies spec_arg_valid(#[trigger] tail[i]) by {
            assert(tail[i] == args[i + 1]);
        }
        if tail.len() > 0 {
            assert(tail.last() == args.last());
        }
        lemma_parse_wire_args(b, off2, tail, pad_len);
        let models = args.map_values(|a: AcpiMethodArgument| spec_arg_model_of(a));
        let tail_models = tail.map_values(|a: AcpiMethodArgument| spec_arg_model_of(a));
        assert forall|i: int| 0 <= i < models.len() implies models[i] == (seq![
            spec_arg_model_of(a0),
        ] + tail_models)[i] by {
            if i > 0 {
                assert(tail[i - 1] == args[i]);
                assert(tail_models[i - 1] == spec_arg_model_of(tail[i - 1]));
            }
        }
        assert(models =~= seq![spec_arg_model_of(a0)] + tail_models);
        assert(spec_parse_args(b, off, args.len() as nat) == Some(models));
    }
}

/// Round-trip law.  `encode` lays the argument records out as
/// `spec_args_wire_bytes(args)`, the trailer of `spec_encode_bytes`.
/// Read back as an output buffer — any signature and length words, a
/// count word declaring the same number of arguments, the records
/// themselves, and any trailing bytes (the response buffer's zero
/// padding in practice) — those bytes parse successfully and recover
/// exactly the type tag, data length, inline value and payload of every
/// argument, in order.  The padding may even be empty, except when the
/// final argument's payload is shorter than the 4-byte inline-value
/// slot the parser insists on (a string of fewer than three bytes):
/// then at least the missing bytes must follow.
pub proof fn lemma_encode_decode_round_trip(
    sig: u32,
    length: u32,
    args: Seq<AcpiMethodArgument>,
    pad: Seq<u8>,
)
    requires
        spec_encode_ok(args),
        args.len() == 0 || spec_wire_payload(args.last()).len() + pad.len() >= 4,
    ensures
        ({
            let out = spec_u32_to_le_bytes(sig) + spec_u32_to_le_bytes(length)
                + spec_u32_to_le_bytes(args.len() as u32) + spec_args_wire_bytes(args) + pad;
            &&& out.len() >= 12
            &&& spec_u32_from_le_bytes(out.subrange(0, 4)) == sig
            &&& spec_u32_from_le_bytes(out.subrange(4, 8)) == length
            &&& spec_u32_from_le_bytes(out.subrange(8, 12)) == args.len()
            &&& spec_parse_args(out, 12, args.len() as nat) == Some(
                args.map_values(|a: AcpiMethodArgument| spec_arg_model_of(a)),
            )
        }),
{
    lemma_auto_spec_u32_to_from_le_bytes();
    let out = spec_u32_to_le_bytes(sig) + spec_u32_to_le_bytes(length) + spec_u32_to_le_bytes(
        args.len() as u32,
    ) + spec_args_wire_bytes(args) + pad;
    assert(out.subrange(0, 4) =~= spec_u32_to_le_bytes(sig));
    assert(out.subrange(4, 8) =~= spec_u32_to_le_bytes(length));
    assert(out.subrange(8, 12) =~= spec_u32_to_le_bytes(args.len() as u32));
    assert(out.subrange(12, 12 + spec_args_wire_bytes(args).len() as int) =~= spec_args_wire_bytes(
        args,
    ));
    lemma_parse_wire_args(out, 12, args, pad.len() as int);
}

/// Why a well-formed output buffer still failed to answer a variable
/// read or write.
#[derive(Clone, Copy, Debug, PartialEq, Eq, Structural)]
pub enum AcpiVarError {
    /// The output did not have the argument count the operation produces.
    UnrecognizedOutput,
    /// The firmware reported a non-zero status in the first argument.
    UnknownFailure,
}

impl AcpiEvalOutputBufferV1 {
    /// Interpret this output as the answer to a variable read: a status
    /// argument followed by a value argument.  The inline value of the
    /// second argument is the variable's value.
    pub fn var_read_value(&self) -> (r: Result<u32, AcpiVarError>)
        ensures
            r == (if !(self.count == 2 && self.arguments@.len() == 2) {
                Err::<u32, AcpiVarError>(AcpiVarError::UnrecognizedOutput)
            } else if self.arguments@[0].data_32 != 0 {
                Err::<u32, AcpiVarError>(AcpiVarError::UnknownFailure)
            } else {
                Ok::<u32, AcpiVarError>(self.arguments@[1].data_32)
            }),
    {
        if !(self.count == 2 && self.arguments.len() == 2) {
            Err(AcpiVarError::UnrecognizedOutput)
        } else if self.arguments[0].data_32 != 0 {
            Err(AcpiVarError::UnknownFailure)
        } else {
            Ok(self.arguments[1].data_32)
        }
    }

    /// Interpret this output as the answer to a variable write: a single
    /// status argument, zero on success.
    pub fn var_write_ack(&self) -> (r: Result<(), AcpiVarError>)
        ensures
            r == (if !(self.count == 1 && self.arguments@.len() == 1) {
                Err::<(), AcpiVarError>(AcpiVarError::UnrecognizedOutput)
            } else if self.arguments@[0].data_32 != 0 {
                Err::<(), AcpiVarError>(AcpiVarError::UnknownFailure)
            } else {
                Ok::<(), AcpiVarError>(())
            }),
    {
        if !(self.count == 1 && self.arguments.len() == 1) {
            Err(AcpiVarError::UnrecognizedOutput)
        } else if self.arguments[0].data_32 != 0 {
            Err(AcpiVarError::UnknownFailure)
        } else {
            Ok(())
        }
    }

    /// Interpret this output as a single plain value: exactly one
    /// argument, whose inline value is the answer.
    pub fn single_value(&self) -> (r: Result<u32, AcpiVarError>)
        ensures
            r == (if self.count == 1 && self.arguments@.len() == 1 {
                Ok::<u32, AcpiVarError>(self.arguments@[0].data_32)
            } else {
                Err::<u32, AcpiVarError>(AcpiVarError::UnrecognizedOutput)
            }),
    {
        if self.count == 1 && self.arguments.len() == 1 {
            Ok(self.arguments[0].data_32)
        } else {
            Err(AcpiVarError::UnrecognizedOutput)
        }
    }
}

impl AcpiParseError {
    /// A short description of the error.
    pub fn as_str(&self) -> (r: &'static str)
        ensures
            r@ == (match self {
                AcpiParseError::InsufficientLength => "InsufficientLength"@,
                AcpiParseError::InvalidFormat => "InvalidFormat"@,
                AcpiParseError::TooManyArguments => "TooManyArguments"@,
            }),
    {
        match self {
            AcpiParseError::InsufficientLength => "InsufficientLength",
            AcpiParseError::InvalidFormat => "InvalidFormat",
            AcpiParseError::TooManyArguments => "TooManyArguments",
        }
    }
}

/// The firmware-backed data source.  The evaluation call itself is
/// platform code outside this library; this library builds the bytes it
/// consumes and parses the bytes it returns.
pub struct Acpi {}

impl Acpi {
    pub fn new() -> (r: Acpi) {
        Acpi {  }
    }
}

/// Serialize a method name and argument list to the flat input byte
/// sequence the evaluation call expects; the caller passes the returned
/// vector's length to the call.
pub fn encode(name: &str, args: Option<&[AcpiMethodArgument]>) -> (r: Result<
    Vec<u8>,
    AcpiParseError,
>)
    ensures
        r is Ok <==> spec_encode_ok(spec_opt_args(args)),
        r matches Ok(buf) ==> buf@ == spec_encode_bytes(name.spec_bytes(), spec_opt_args(args)),
        r matches Ok(buf) ==> buf@.len() == 268 + 4 * spec_opt_args(args).len() + spec_total_size(
            spec_opt_args(args),
        ),
        r matches Err(e) ==> e == (if spec_opt_args(args).len() > 7 {
            AcpiParseError::TooManyArguments
        } else {
            AcpiParseError::InvalidFormat
        }),
{
    match AcpiEvalInputBufferComplexV1Ex::build(name, args) {
        Ok(ib) => {
            let buf = ib.to_bytes();
            proof {
                lemma_args_bytes_bridge(ib.arguments@, spec_opt_args(args));
                lemma_args_wire_bytes_len(spec_opt_args(args));
                lemma_auto_spec_u32_to_from_le_bytes();
                assert(buf@ =~= spec_encode_bytes(name.spec_bytes(), spec_opt_args(args)));
            }
            Ok(buf)
        },
        Err(e) => Err(e),
    }
}

} // verus!
