//! The data allocator and serializer: assigns each data object a base address
//! in the target's linear memory (8-aligned start, chunk sizes rounded up to
//! words) and emits the initialization code that writes non-zero payload.
use vstd::prelude::*;

use crate::ast::CompileError;
use crate::ast::CompileErrorV;
use crate::ast::DataObject;
use crate::ast::DataObjectV;
use crate::ast::DataValue;
use crate::ast::DataValueV;
use crate::ast::data_objects_view;
use crate::ast::data_value_size;
use crate::ast::data_values_view;
use crate::target::TargetInstr;
use crate::target::TargetInstrV;
use crate::target::TargetOp;
use crate::target::TargetReg;
use crate::target::render_all_seq;
use crate::target::render_instrs;
use crate::target::target_instrs_view;
use crate::text::escape_label;
use crate::text::escape_seq;
use crate::text::str_eq;

verus! {

use vstd::string::StringExecFns;

/// `x` rounded up to a multiple of 4.
pub open spec fn align4(x: int) -> int {
    ((x + 3) / 4) * 4
}

/// `x` rounded up to a multiple of 8.
pub open spec fn align8(x: int) -> int {
    ((x + 7) / 8) * 8
}

proof fn lemma_align4_bounds(x: int)
    requires
        x >= 0,
    ensures
        x <= align4(x) < x + 4,
{
}

proof fn lemma_align8_bounds(x: int)
    requires
        x >= 0,
    ensures
        x <= align8(x) < x + 8,
{
}

/// Rounds a chunk size up to a multiple of 4 (memory is word-addressed in
/// groups of 4 bytes).
pub fn next_multiple_of_four(x: usize) -> (r: usize)
    requires
        x + 3 <= usize::MAX,
    ensures
        r == align4(x as int),
{
    ((x + 3) / 4) * 4
}

/// The summed, word-rounded sizes of the first `j` chunks.
pub open spec fn chunk_sizes_prefix(values: Seq<DataValueV>, j: int) -> int
    decreases j,
{
    if j <= 0 {
        0
    } else {
        chunk_sizes_prefix(values, j - 1) + align4(data_value_size(values[j - 1]))
    }
}

/// The size a data object occupies: the sum of its chunk sizes, each rounded
/// up to a multiple of 4.
pub open spec fn object_size(values: Seq<DataValueV>) -> int {
    chunk_sizes_prefix(values, values.len() as int)
}

/// The summed raw (unrounded) sizes of the first `j` chunks.
pub open spec fn raw_sizes_prefix(values: Seq<DataValueV>, j: int) -> int
    decreases j,
{
    if j <= 0 {
        0
    } else {
        raw_sizes_prefix(values, j - 1) + data_value_size(values[j - 1])
    }
}

proof fn lemma_chunk_prefix_mono(values: Seq<DataValueV>, j: int, k: int)
    requires
        0 <= j <= k,
    ensures
        chunk_sizes_prefix(values, j) <= chunk_sizes_prefix(values, k),
    decreases k,
{
    if j < k {
        lemma_chunk_prefix_mono(values, j, k - 1);
        lemma_align4_bounds(data_value_size(values[k - 1]));
    }
}

proof fn lemma_raw_le_chunk_prefix(values: Seq<DataValueV>, j: int)
    requires
        0 <= j,
    ensures
        0 <= raw_sizes_prefix(values, j) <= chunk_sizes_prefix(values, j),
    decreases j,
{
    if j > 0 {
        lemma_raw_le_chunk_prefix(values, j - 1);
        lemma_align4_bounds(data_value_size(values[j - 1]));
    }
}

/// The summed sizes of the first `i` objects.
pub open spec fn object_sizes_prefix(objects: Seq<DataObjectV>, i: int) -> int
    decreases i,
{
    if i <= 0 {
        0
    } else {
        object_sizes_prefix(objects, i - 1) + object_size(objects[i - 1].values)
    }
}

proof fn lemma_object_prefix_mono(objects: Seq<DataObjectV>, i: int, k: int)
    requires
        0 <= i <= k,
    ensures
        object_sizes_prefix(objects, i) <= object_sizes_prefix(objects, k),
    decreases k,
{
    if i < k {
        lemma_object_prefix_mono(objects, i, k - 1);
        lemma_chunk_prefix_mono(objects[k - 1].values, 0, objects[k - 1].values.len() as int);
    }
}

/// The base address assigned to the `i`-th object: objects are laid out
/// contiguously, lowest first, from the 8-aligned start address.
pub open spec fn spec_position(objects: Seq<DataObjectV>, start: int, i: int) -> int {
    align8(start) + object_sizes_prefix(objects, i)
}

/// The completed position table: one entry per object, in layout order.
pub open spec fn spec_positions(objects: Seq<DataObjectV>, start: int) -> Seq<(Seq<char>, u32)> {
    Seq::new(objects.len(), |i: int| (objects[i].name, spec_position(objects, start, i) as u32))
}

/// The first address past the last object.
pub open spec fn spec_data_end(objects: Seq<DataObjectV>, start: int) -> int {
    spec_position(objects, start, objects.len() as int)
}

/// The mapping from data-object name to its assigned base address, in layout
/// order. Built once by the allocator, consumed read-only afterward.
#[derive(Debug)]
pub struct SymbolTable {
    entries: Vec<(String, u32)>,
}

impl View for SymbolTable {
    type V = Seq<(Seq<char>, u32)>;

    closed spec fn view(&self) -> Seq<(Seq<char>, u32)> {
        self.entries@.map_values(|e: (String, u32)| (e.0@, e.1))
    }
}

/// The address of the first entry with the given name, if any.
pub open spec fn spec_lookup(entries: Seq<(Seq<char>, u32)>, name: Seq<char>) -> Option<u32>
    decreases entries.len(),
{
    if entries.len() == 0 {
        None
    } else if entries[0].0 == name {
        Some(entries[0].1)
    } else {
        spec_lookup(entries.drop_first(), name)
    }
}

proof fn lemma_lookup_skip(entries: Seq<(Seq<char>, u32)>, name: Seq<char>, i: int)
    requires
        0 <= i <= entries.len(),
        forall|j: int| 0 <= j < i ==> entries[j].0 != name,
    ensures
        spec_lookup(entries, name) == spec_lookup(entries.skip(i), name),
    decreases i,
{
    if i > 0 {
        lemma_lookup_skip(entries, name, i - 1);
        assert(entries.skip(i - 1).drop_first() =~= entries.skip(i));
        assert(entries.skip(i - 1)[0] == entries[i - 1]);
    } else {
        assert(entries.skip(0) =~= entries);
    }
}

impl SymbolTable {
    /// An empty table.
    pub fn new() -> (r: Self)
        ensures
            r@ == Seq::<(Seq<char>, u32)>::empty(),
    {
        let r = SymbolTable { entries: Vec::new() };
        proof {
            assert(r@ =~= Seq::<(Seq<char>, u32)>::empty());
        }
        r
    }

    /// Appends one name/address entry.
    pub fn push(&mut self, name: String, addr: u32)
        ensures
            final(self)@ == old(self)@.push((name@, addr)),
    {
        self.entries.push((name, addr));
        proof {
            assert(final(self)@ =~= old(self)@.push((name@, addr)));
        }
    }

    /// The number of entries.
    pub fn len(&self) -> (r: usize)
        ensures
            r == self@.len(),
    {
        self.entries.len()
    }

    /// Looks a name up; the first entry of that name decides.
    pub fn get(&self, name: &str) -> (r: Option<u32>)
        ensures
            r == spec_lookup(self@, name@),
    {
        let mut i: usize = 0;
        while i < self.entries.len()
            invariant
                i <= self.entries.len(),
                self@.len() == self.entries@.len(),
                forall|j: int| 0 <= j < i ==> self@[j].0 != name@,
            decreases self.entries.len() - i,
        {
            if str_eq(self.entries[i].0.as_str(), name) {
                proof {
                    lemma_lookup_skip(self@, name@, i as int);
                    assert(self@.skip(i as int)[0] == self@[i as int]);
                }
                return Some(self.entries[i].1);
            }
            i += 1;
        }
        proof {
            lemma_lookup_skip(self@, name@, i as int);
            assert(self@.skip(i as int).len() == 0);
        }
        None
    }

    /// Whether the table holds the given name.
    pub fn contains_name(&self, name: &str) -> (r: bool)
        ensures
            r == (spec_lookup(self@, name@) is Some),
    {
        match self.get(name) {
            Some(_) => true,
            None => false,
        }
    }
}

/// The byte at index `j`, or 0 past the end (memory defaults to zero).
pub open spec fn byte_or_zero(bytes: Seq<u8>, j: int) -> int {
    if 0 <= j < bytes.len() {
        bytes[j] as int
    } else {
        0
    }
}

/// The little-endian 4-byte word starting at byte index `i`.
pub open spec fn word_int(bytes: Seq<u8>, i: int) -> int {
    byte_or_zero(bytes, i) + byte_or_zero(bytes, i + 1) * 0x100 + byte_or_zero(bytes, i + 2)
        * 0x10000 + byte_or_zero(bytes, i + 3) * 0x1000000
}

/// The store code for the words of a literal byte payload from byte index `i`
/// on: all-zero words emit nothing (memory is zero-initialized).
pub open spec fn direct_code_from(bytes: Seq<u8>, pos: int, i: int) -> Seq<TargetInstrV>
    decreases bytes.len() - i + 3,
{
    if i < 0 || i >= bytes.len() {
        Seq::empty()
    } else {
        let w = word_int(bytes, i);
        (if w != 0 {
            seq![
                TargetInstrV::Assign(TargetReg::Addr, TargetOp::Hex((pos + i) as u32)),
                TargetInstrV::Mstore(TargetOp::Hex(w as u32)),
            ]
        } else {
            Seq::empty()
        }) + direct_code_from(bytes, pos, i + 4)
    }
}

/// The initialization code of one chunk at address `pos`: nothing for a zero
/// run, word stores for a literal payload, an address store for a reference
/// (via a label load when the symbol is no data object); an `Offset` chunk is
/// an unimplemented relocation.
pub open spec fn chunk_code(v: DataValueV, pos: int, table: Seq<(Seq<char>, u32)>) -> Result<
    Seq<TargetInstrV>,
    CompileErrorV,
> {
    match v {
        DataValueV::Zero(_) => Ok(Seq::empty()),
        DataValueV::Direct(bytes) => Ok(direct_code_from(bytes, pos, 0)),
        DataValueV::Reference(sym) => Ok(
            match spec_lookup(table, sym) {
                Some(p) => seq![
                    TargetInstrV::Assign(TargetReg::Addr, TargetOp::Hex(pos as u32)),
                    TargetInstrV::Mstore(TargetOp::Hex(p)),
                ],
                None => seq![
                    TargetInstrV::Assign(TargetReg::Addr, TargetOp::Hex(pos as u32)),
                    TargetInstrV::LoadLabel(TargetReg::Tmp1, escape_seq(sym)),
                    TargetInstrV::Mstore(TargetOp::Reg(TargetReg::Tmp1)),
                ],
            },
        ),
        DataValueV::Offset(_, _) => Err(CompileErrorV::UnimplementedRelocation),
    }
}

/// The initialization code of one object's chunks from index `j` on; each
/// chunk advances the write position by its raw size.
pub open spec fn object_code_from(
    values: Seq<DataValueV>,
    pos: int,
    j: int,
    table: Seq<(Seq<char>, u32)>,
) -> Result<Seq<TargetInstrV>, CompileErrorV>
    decreases values.len() - j,
{
    if j < 0 || j >= values.len() {
        Ok(Seq::empty())
    } else {
        match chunk_code(values[j], pos, table) {
            Err(e) => Err(e),
            Ok(c) => match object_code_from(
                values,
                pos + data_value_size(values[j]),
                j + 1,
                table,
            ) {
                Err(e) => Err(e),
                Ok(rest) => Ok(c + rest),
            },
        }
    }
}

/// One object's emitted lines: its chunk code rendered as text, the first
/// line prefixed with a comment naming the object.
pub open spec fn spec_object_lines(
    name: Seq<char>,
    values: Seq<DataValueV>,
    pos: int,
    table: Seq<(Seq<char>, u32)>,
) -> Result<Seq<Seq<char>>, CompileErrorV> {
    match object_code_from(values, pos, 0, table) {
        Err(e) => Err(e),
        Ok(code) => {
            let lines = render_all_seq(code);
            if lines.len() == 0 {
                Ok(lines)
            } else {
                Ok(lines.update(0, "// data "@ + name + "\n"@ + lines[0]))
            }
        },
    }
}

/// The emitted lines of all objects from index `i` on.
pub open spec fn spec_store_from(
    objects: Seq<DataObjectV>,
    start: int,
    i: int,
    table: Seq<(Seq<char>, u32)>,
) -> Result<Seq<Seq<char>>, CompileErrorV>
    decreases objects.len() - i,
{
    if i < 0 || i >= objects.len() {
        Ok(Seq::empty())
    } else {
        match spec_object_lines(
            objects[i].name,
            objects[i].values,
            spec_position(objects, start, i),
            table,
        ) {
            Err(e) => Err(e),
            Ok(lines) => match spec_store_from(objects, start, i + 1, table) {
                Err(e) => Err(e),
                Ok(rest) => Ok(lines + rest),
            },
        }
    }
}

/// The whole allocator/serializer: the completed position table and the data
/// initialization lines, or the first fatal error.
pub open spec fn spec_store_data(objects: Seq<DataObjectV>, start: int) -> Result<
    (Seq<Seq<char>>, Seq<(Seq<char>, u32)>),
    CompileErrorV,
> {
    let table = spec_positions(objects, start);
    match spec_store_from(objects, start, 0, table) {
        Err(e) => Err(e),
        Ok(lines) => Ok((lines, table)),
    }
}

pub open spec fn lines_view(lines: Seq<String>) -> Seq<Seq<char>> {
    lines.map_values(|s: String| s@)
}

/// Computes one object's word-rounded size.
fn object_size_exec(values: &Vec<DataValue>, bound: Ghost<int>) -> (r: u64)
    requires
        chunk_sizes_prefix(data_values_view(values@), values@.len() as int) <= bound@,
        bound@ <= 0xFFFF_FFFC,
    ensures
        r == object_size(data_values_view(values@)),
{
    let ghost vv = data_values_view(values@);
    let mut acc: u64 = 0;
    let mut j: usize = 0;
    while j < values.len()
        invariant
            j <= values.len(),
            vv == data_values_view(values@),
            vv.len() == values@.len(),
            chunk_sizes_prefix(vv, vv.len() as int) <= bound@,
            bound@ <= 0xFFFF_FFFC,
            acc == chunk_sizes_prefix(vv, j as int),
        decreases values.len() - j,
    {
        let sz = values[j].size();
        proof {
            lemma_chunk_prefix_mono(vv, j + 1, vv.len() as int);
            lemma_align4_bounds(sz as int);
            assert(data_value_size(vv[j as int]) == sz as int);
        }
        let rounded = next_multiple_of_four(sz);
        acc = acc + (rounded as u64);
        j += 1;
    }
    acc
}

/// Assigns each object its base address and emits the initialization code
/// that writes non-zero payload at runtime. Returns the ordered lines of the
/// data-init body and the completed position table.
pub fn store_data_objects(objects: &Vec<DataObject>, memory_start: u32) -> (res: Result<
    (Vec<String>, SymbolTable),
    CompileError,
>)
    requires
        spec_data_end(data_objects_view(objects@), memory_start as int) <= 0xFFFF_FFFC,
    ensures
        match res {
            Ok(out) => spec_store_data(data_objects_view(objects@), memory_start as int) == Ok::<
                _,
                CompileErrorV,
            >((lines_view(out.0@), out.1@)),
            Err(e) => spec_store_data(data_objects_view(objects@), memory_start as int) == Err::<
                (Seq<Seq<char>>, Seq<(Seq<char>, u32)>),
                CompileErrorV,
            >(e@),
        },
{
    let ghost objs = data_objects_view(objects@);
    let ghost start = memory_start as int;
    let ghost table_spec = spec_positions(objs, start);
    let aligned: u64 = ((memory_start as u64 + 7) / 8) * 8;
    proof {
        lemma_align8_bounds(start);
        assert(aligned == align8(start));
        lemma_object_prefix_mono(objs, 0, objs.len() as int);
    }
    // First pass: assign contiguous addresses in layout order.
    let mut table = SymbolTable::new();
    let mut pos_list: Vec<u32> = Vec::new();
    let mut current_pos: u64 = aligned;
    let mut i: usize = 0;
    while i < objects.len()
        invariant
            i <= objects.len(),
            objs == data_objects_view(objects@),
            objs.len() == objects@.len(),
            start == memory_start as int,
            table_spec == spec_positions(objs, start),
            spec_data_end(objs, start) <= 0xFFFF_FFFC,
            current_pos == spec_position(objs, start, i as int),
            current_pos <= 0xFFFF_FFFC,
            table@.len() == i,
            forall|k: int| 0 <= k < i ==> table@[k] == table_spec[k],
            pos_list@.len() == i,
            forall|k: int|
                0 <= k < i ==> pos_list@[k] == (spec_position(objs, start, k) as u32),
        decreases objects.len() - i,
    {
        proof {
            lemma_object_prefix_mono(objs, i as int, objs.len() as int);
            lemma_object_prefix_mono(objs, i + 1, objs.len() as int);
            lemma_chunk_prefix_mono(
                objs[i as int].values,
                0,
                objs[i as int].values.len() as int,
            );
            assert(objs[i as int] == objects@[i as int]@);
        }
        let size = object_size_exec(
            &objects[i].values,
            Ghost(0xFFFF_FFFC - spec_position(objs, start, i as int)),
        );
        table.push(objects[i].name.clone(), current_pos as u32);
        pos_list.push(current_pos as u32);
        current_pos = current_pos + size;
        i += 1;
    }
    proof {
        assert(table@ =~= table_spec);
    }
    // Second pass: serialize each object's chunks at its assigned address.
    let mut all_lines: Vec<String> = Vec::new();
    proof {
        assert(lines_view(all_lines@) =~= Seq::<Seq<char>>::empty());
        match spec_store_from(objs, start, 0, table_spec) {
            Ok(rest) => {
                assert(lines_view(all_lines@) + rest =~= rest);
            },
            Err(_) => {},
        }
    }
    let mut i: usize = 0;
    while i < objects.len()
        invariant
            i <= objects.len(),
            objs == data_objects_view(objects@),
            objs.len() == objects@.len(),
            start == memory_start as int,
            table@ == table_spec,
            table_spec == spec_positions(objs, start),
            spec_data_end(objs, start) <= 0xFFFF_FFFC,
            pos_list@.len() == objects@.len(),
            forall|k: int|
                0 <= k < objects@.len() ==> pos_list@[k] == (
                spec_position(objs, start, k) as u32),
            spec_store_from(objs, start, 0, table_spec) == (match spec_store_from(
                objs,
                start,
                i as int,
                table_spec,
            ) {
                Ok(rest) => Ok::<Seq<Seq<char>>, CompileErrorV>(lines_view(all_lines@) + rest),
                Err(e) => Err::<Seq<Seq<char>>, CompileErrorV>(e),
            }),
        decreases objects.len() - i,
    {
        proof {
            lemma_align8_bounds(start);
            lemma_object_prefix_mono(objs, 0, i as int);
            lemma_object_prefix_mono(objs, i as int, objs.len() as int);
            lemma_object_prefix_mono(objs, i + 1, objs.len() as int);
            assert(objs[i as int] == objects@[i as int]@);
            assert(objs[i as int].name == objects@[i as int].name@);
            assert(objs[i as int].values == data_values_view(objects@[i as int].values@));
            assert(spec_position(objs, start, i + 1) == spec_position(objs, start, i as int)
                + object_size(objs[i as int].values));
            assert(0 <= spec_position(objs, start, i as int) <= 0xFFFF_FFFC);
            assert(pos_list@[i as int] == (spec_position(objs, start, i as int) as u32));
            assert((spec_position(objs, start, i as int) as u32) as int == spec_position(
                objs,
                start,
                i as int,
            ));
        }
        let pos_i = pos_list[i];
        let lines = match store_one_object(
            &objects[i],
            pos_i,
            &table,
            Ghost(spec_position(objs, start, i as int)),
            Ghost(0xFFFF_FFFC),
        ) {
            Ok(lines) => lines,
            Err(e) => {
                proof {
                    assert(spec_store_from(objs, start, i as int, table_spec) == Err::<
                        Seq<Seq<char>>,
                        CompileErrorV,
                    >(e@));
                    assert(spec_store_data(objs, start) == Err::<
                        (Seq<Seq<char>>, Seq<(Seq<char>, u32)>),
                        CompileErrorV,
                    >(e@));
                }
                return Err(e);
            },
        };
        let mut k: usize = 0;
        let ghost snapshot = all_lines@;
        while k < lines.len()
            invariant
                k <= lines.len(),
                all_lines@ == snapshot + lines@.take(k as int),
            decreases lines.len() - k,
        {
            let line = lines[k].clone();
            all_lines.push(line);
            proof {
                assert(all_lines@ =~= snapshot + lines@.take(k + 1));
            }
            k += 1;
        }
        proof {
            assert(lines@.take(lines@.len() as int) =~= lines@);
            assert(all_lines@ == snapshot + lines@);
            let li = lines_view(lines@);
            assert(lines_view(snapshot + lines@) =~= lines_view(snapshot) + li);
            assert(spec_object_lines(
                objs[i as int].name,
                objs[i as int].values,
                spec_position(objs, start, i as int),
                table_spec,
            ) == Ok::<Seq<Seq<char>>, CompileErrorV>(li));
            match spec_store_from(objs, start, i + 1, table_spec) {
                Ok(rest) => {
                    assert(spec_store_from(objs, start, i as int, table_spec) == Ok::<
                        Seq<Seq<char>>,
                        CompileErrorV,
                    >(li + rest));
                    assert((lines_view(snapshot) + li) + rest =~= lines_view(snapshot) + (li
                        + rest));
                },
                Err(e) => {
                    assert(spec_store_from(objs, start, i as int, table_spec) == Err::<
                        Seq<Seq<char>>,
                        CompileErrorV,
                    >(e));
                },
            }
        }
        i += 1;
    }
    proof {
        match spec_store_from(objs, start, objs.len() as int, table_spec) {
            Ok(rest) => {
                assert(lines_view(all_lines@) + rest =~= lines_view(all_lines@));
            },
            Err(_) => {},
        }
    }
    Ok((all_lines, table))
}

/// Serializes one object: its chunk code rendered, the first line prefixed
/// with a comment naming the object.
fn store_one_object(
    object: &DataObject,
    pos: u32,
    table: &SymbolTable,
    pos_ghost: Ghost<int>,
    bound: Ghost<int>,
) -> (res: Result<Vec<String>, CompileError>)
    requires
        pos as int == pos_ghost@,
        pos_ghost@ + object_size(data_values_view(object.values@)) <= bound@,
        bound@ <= 0xFFFF_FFFC,
    ensures
        match res {
            Ok(lines) => spec_object_lines(
                object.name@,
                data_values_view(object.values@),
                pos_ghost@,
                table@,
            ) == Ok::<Seq<Seq<char>>, CompileErrorV>(lines_view(lines@)),
            Err(e) => spec_object_lines(
                object.name@,
                data_values_view(object.values@),
                pos_ghost@,
                table@,
            ) == Err::<Seq<Seq<char>>, CompileErrorV>(e@),
        },
{
    let ghost vv = data_values_view(object.values@);
    let ghost pos0 = pos_ghost@;
    let mut instrs: Vec<TargetInstr> = Vec::new();
    let mut cur: u64 = pos as u64;
    let mut j: usize = 0;
    proof {
        lemma_raw_le_chunk_prefix(vv, 0);
        assert(target_instrs_view(instrs@) =~= Seq::<TargetInstrV>::empty());
        assert(object_code_from(vv, pos0, 0, table@) == (match object_code_from(
            vv,
            pos0,
            0,
            table@,
        ) {
            Ok(rest) => Ok::<Seq<TargetInstrV>, CompileErrorV>(
                target_instrs_view(instrs@) + rest,
            ),
            Err(e) => Err::<Seq<TargetInstrV>, CompileErrorV>(e),
        })) by {
            match object_code_from(vv, pos0, 0, table@) {
                Ok(rest) => {
                    assert(target_instrs_view(instrs@) + rest =~= rest);
                },
                Err(_) => {},
            }
        }
    }
    while j < object.values.len()
        invariant
            j <= object.values.len(),
            vv == data_values_view(object.values@),
            vv.len() == object.values@.len(),
            pos0 == pos_ghost@,
            pos0 >= 0,
            bound@ <= 0xFFFF_FFFC,
            pos0 + object_size(vv) <= bound@,
            cur == pos0 + raw_sizes_prefix(vv, j as int),
            object_code_from(vv, pos0, 0, table@) == (match object_code_from(
                vv,
                cur as int,
                j as int,
                table@,
            ) {
                Ok(rest) => Ok::<Seq<TargetInstrV>, CompileErrorV>(
                    target_instrs_view(instrs@) + rest,
                ),
                Err(e) => Err::<Seq<TargetInstrV>, CompileErrorV>(e),
            }),
        decreases object.values.len() - j,
    {
        proof {
            lemma_raw_le_chunk_prefix(vv, j as int);
            lemma_raw_le_chunk_prefix(vv, j + 1);
            lemma_chunk_prefix_mono(vv, j as int, vv.len() as int);
            lemma_chunk_prefix_mono(vv, j + 1, vv.len() as int);
            assert(vv[j as int] == object.values@[j as int]@);
        }
        let ghost snapshot = target_instrs_view(instrs@);
        let chunk_pos: u64 = cur;
        match &object.values[j] {
            DataValue::Zero(_) => {
                proof {
                    assert(chunk_code(vv[j as int], chunk_pos as int, table@) == Ok::<
                        Seq<TargetInstrV>,
                        CompileErrorV,
                    >(Seq::empty()));
                    assert(snapshot + Seq::<TargetInstrV>::empty() =~= snapshot);
                }
            },
            DataValue::Direct(bytes) => {
                emit_direct_words(&mut instrs, bytes, chunk_pos, Ghost(bound@));
                proof {
                    assert(target_instrs_view(instrs@) =~= snapshot + direct_code_from(
                        bytes@,
                        chunk_pos as int,
                        0,
                    ));
                }
            },
            DataValue::Reference(sym) => {
                instrs.push(
                    TargetInstr::Assign(TargetReg::Addr, TargetOp::Hex(chunk_pos as u32)),
                );
                match table.get(sym.as_str()) {
                    Some(p) => {
                        instrs.push(TargetInstr::Mstore(TargetOp::Hex(p)));
                        proof {
                            assert(target_instrs_view(instrs@) =~= snapshot + seq![
                                TargetInstrV::Assign(
                                    TargetReg::Addr,
                                    TargetOp::Hex(chunk_pos as u32),
                                ),
                                TargetInstrV::Mstore(TargetOp::Hex(p)),
                            ]);
                        }
                    },
                    None => {
                        instrs.push(
                            TargetInstr::LoadLabel(TargetReg::Tmp1, escape_label(sym.as_str())),
                        );
                        instrs.push(TargetInstr::Mstore(TargetOp::Reg(TargetReg::Tmp1)));
                        proof {
                            assert(target_instrs_view(instrs@) =~= snapshot + seq![
                                TargetInstrV::Assign(
                                    TargetReg::Addr,
                                    TargetOp::Hex(chunk_pos as u32),
                                ),
                                TargetInstrV::LoadLabel(TargetReg::Tmp1, escape_seq(sym@)),
                                TargetInstrV::Mstore(TargetOp::Reg(TargetReg::Tmp1)),
                            ]);
                        }
                    },
                }
            },
            DataValue::Offset(_, _) => {
                proof {
                    assert(chunk_code(vv[j as int], cur as int, table@) == Err::<
                        Seq<TargetInstrV>,
                        CompileErrorV,
                    >(CompileErrorV::UnimplementedRelocation));
                    assert(object_code_from(vv, cur as int, j as int, table@) == Err::<
                        Seq<TargetInstrV>,
                        CompileErrorV,
                    >(CompileErrorV::UnimplementedRelocation));
                    assert(object_code_from(vv, pos0, 0, table@) == Err::<
                        Seq<TargetInstrV>,
                        CompileErrorV,
                    >(CompileErrorV::UnimplementedRelocation));
                    assert(spec_object_lines(object.name@, vv, pos0, table@) == Err::<
                        Seq<Seq<char>>,
                        CompileErrorV,
                    >(CompileErrorV::UnimplementedRelocation));
                }
                return Err(CompileError::UnimplementedRelocation);
            },
        }
        let sz = object.values[j].size();
        proof {
            assert(sz as int == data_value_size(vv[j as int]));
        }
        cur = cur + (sz as u64);
        proof {
            assert(cur as int == chunk_pos as int + data_value_size(vv[j as int]));
            match chunk_code(vv[j as int], chunk_pos as int, table@) {
                Ok(c) => {
                    assert(target_instrs_view(instrs@) =~= snapshot + c);
                    match object_code_from(vv, cur as int, j + 1, table@) {
                        Ok(rest) => {
                            assert(snapshot + (c + rest) =~= (snapshot + c) + rest);
                        },
                        Err(_) => {},
                    }
                },
                Err(_) => {
                    assert(false);
                },
            }
        }
        j += 1;
    }
    let lines = render_instrs(&instrs);
    proof {
        assert(object_code_from(vv, pos0, 0, table@) == Ok::<Seq<TargetInstrV>, CompileErrorV>(
            target_instrs_view(instrs@),
        )) by {
            assert(target_instrs_view(instrs@) + Seq::<TargetInstrV>::empty() =~= target_instrs_view(
                instrs@,
            ));
        }
        assert(lines_view(lines@) =~= render_all_seq(target_instrs_view(instrs@)));
    }
    if lines.len() == 0 {
        Ok(lines)
    } else {
        let mut comment = String::from_str("// data ");
        comment.append(object.name.as_str());
        comment.append("\n");
        let first = lines[0].clone();
        comment.append(first.as_str());
        let mut lines = lines;
        lines.set(0, comment);
        proof {
            assert(lines_view(lines@) =~= render_all_seq(target_instrs_view(instrs@)).update(
                0,
                "// data "@ + object.name@ + "\n"@ + render_all_seq(target_instrs_view(instrs@))[0],
            ));
        }
        Ok(lines)
    }
}

/// Emits the word stores of a literal byte payload; all-zero words are
/// skipped.
fn emit_direct_words(
    instrs: &mut Vec<TargetInstr>,
    bytes: &Vec<u8>,
    pos: u64,
    bound: Ghost<int>,
) -> (nothing: ())
    requires
        pos + bytes@.len() <= bound@,
        bound@ <= 0xFFFF_FFFC,
    ensures
        target_instrs_view(final(instrs)@) == target_instrs_view(old(instrs)@)
            + direct_code_from(bytes@, pos as int, 0),
{
    let ghost base = target_instrs_view(old(instrs)@);
    let mut i: usize = 0;
    proof {
        assert(base + direct_code_from(bytes@, pos as int, 0) =~= (match direct_code_from(
            bytes@,
            pos as int,
            0,
        ) {
            x => base + x,
        }));
    }
    while i < bytes.len()
        invariant
            pos + bytes@.len() <= bound@,
            bound@ <= 0xFFFF_FFFC,
            i <= bytes.len() + 3,
            i % 4 == 0,
            base + direct_code_from(bytes@, pos as int, 0) == target_instrs_view(instrs@)
                + direct_code_from(bytes@, pos as int, i as int),
        decreases bytes.len() + 4 - i,
    {
        let b0 = bytes[i] as u32;
        let b1 = if i + 1 < bytes.len() {
            bytes[i + 1] as u32
        } else {
            0
        };
        let b2 = if i + 2 < bytes.len() {
            bytes[i + 2] as u32
        } else {
            0
        };
        let b3 = if i + 3 < bytes.len() {
            bytes[i + 3] as u32
        } else {
            0
        };
        let w: u32 = b0 + b1 * 0x100 + b2 * 0x10000 + b3 * 0x1000000;
        let ghost snapshot = target_instrs_view(instrs@);
        if w != 0 {
            instrs.push(TargetInstr::Assign(TargetReg::Addr, TargetOp::Hex(pos as u32 + i as u32)));
            instrs.push(TargetInstr::Mstore(TargetOp::Hex(w)));
        }
        proof {
            assert(w as int == word_int(bytes@, i as int));
            assert((pos as u32 + i as u32) as u32 == (pos as int + i as int) as u32);
            if w != 0 {
                assert(target_instrs_view(instrs@) =~= snapshot + seq![
                    TargetInstrV::Assign(
                        TargetReg::Addr,
                        TargetOp::Hex((pos as int + i as int) as u32),
                    ),
                    TargetInstrV::Mstore(TargetOp::Hex(word_int(bytes@, i as int) as u32)),
                ]);
            }
            match direct_code_from(bytes@, pos as int, i + 4) {
                rest => {
                    assert(direct_code_from(bytes@, pos as int, i as int) == (if word_int(
                        bytes@,
                        i as int,
                    ) != 0 {
                        seq![
                            TargetInstrV::Assign(
                                TargetReg::Addr,
                                TargetOp::Hex((pos as int + i as int) as u32),
                            ),
                            TargetInstrV::Mstore(TargetOp::Hex(word_int(bytes@, i as int) as u32)),
                        ]
                    } else {
                        Seq::empty()
                    }) + rest);
                    assert(snapshot + ((if word_int(bytes@, i as int) != 0 {
                        seq![
                            TargetInstrV::Assign(
                                TargetReg::Addr,
                                TargetOp::Hex((pos as int + i as int) as u32),
                            ),
                            TargetInstrV::Mstore(TargetOp::Hex(word_int(bytes@, i as int) as u32)),
                        ]
                    } else {
                        Seq::empty()
                    }) + rest) =~= target_instrs_view(instrs@) + rest);
                },
            }
        }
        i += 4;
    }
    proof {
        assert(direct_code_from(bytes@, pos as int, i as int) =~= Seq::<TargetInstrV>::empty());
        assert(target_instrs_view(instrs@) + Seq::<TargetInstrV>::empty() =~= target_instrs_view(
            instrs@,
        ));
    }
}

} // verus!
