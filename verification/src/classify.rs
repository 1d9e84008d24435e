//! Signal/slot classification: the original header text is scanned
//! line by line for access-section markers, and each method is tagged by
//! the last marker before its declaration line within its class's scope.

use vstd::prelude::*;
use crate::model::{view_method, view_string_seq, CppData, CppDataV, CppMethod, CppMethodClassMembership, CppMethodV, CppTypeDataV};
use crate::database::{copy_membership, copy_method, spec_find_first, spec_kind_bases};

verus! {

/// The three marker kinds a header line can open: a signals section, a
/// slots section, or a plain visibility section.
#[derive(Clone, Copy, PartialEq, Eq, Structural, Debug)]
pub enum SectionType {
    Signals,
    Slots,
    Other,
}

/// One marker found in a header: its 0-based line and its kind.
#[derive(Clone, Copy, PartialEq, Eq, Structural, Debug)]
pub struct Section {
    pub line: u64,
    pub section_type: SectionType,
}

/// The contents of one header file, as read by the caller.
pub struct HeaderFile {
    pub include_file_path: String,
    pub text: Vec<u8>,
}

/// Mathematical view of `HeaderFile`.
#[verifier::ext_equal]
pub ghost struct HeaderFileV {
    pub include_file_path: Seq<char>,
    pub text: Seq<u8>,
}

impl View for HeaderFile {
    type V = HeaderFileV;

    open spec fn view(&self) -> HeaderFileV {
        HeaderFileV { include_file_path: self.include_file_path@, text: self.text@ }
    }
}

pub open spec fn view_header_seq(hs: Seq<HeaderFile>) -> Seq<HeaderFileV> {
    hs.map(|i: int, h: HeaderFile| h@)
}

/// ASCII whitespace accepted between a section keyword and its colon.
pub open spec fn spec_is_space(b: u8) -> bool {
    b == 32 || b == 9 || b == 11 || b == 12 || b == 13
}

/// Whether the keyword `kw` occurs in `l` at position `i`, followed by
/// optional whitespace and a colon.
pub open spec fn spec_marker_at(l: Seq<u8>, kw: Seq<u8>, i: int) -> bool {
    &&& 0 <= i
    &&& i + kw.len() <= l.len()
    &&& l.subrange(i, i + kw.len()) == kw
    &&& exists|j: int|
        i + kw.len() <= j < l.len() && l[j] == 58 && (forall|k: int|
            i + kw.len() <= k < j ==> spec_is_space(l[k]))
}

/// Whether `kw`, followed by optional whitespace and a colon, occurs
/// anywhere in `l`.
pub open spec fn spec_contains_marker(l: Seq<u8>, kw: Seq<u8>) -> bool {
    exists|i: int| spec_marker_at(l, kw, i)
}

pub open spec fn spec_kw_signals() -> Seq<u8> {
    seq![115u8, 105u8, 103u8, 110u8, 97u8, 108u8, 115u8]
}

pub open spec fn spec_kw_q_signals() -> Seq<u8> {
    seq![81u8, 95u8, 83u8, 73u8, 71u8, 78u8, 65u8, 76u8, 83u8]
}

pub open spec fn spec_kw_slots() -> Seq<u8> {
    seq![115u8, 108u8, 111u8, 116u8, 115u8]
}

pub open spec fn spec_kw_q_slots() -> Seq<u8> {
    seq![81u8, 95u8, 83u8, 76u8, 79u8, 84u8, 83u8]
}

pub open spec fn spec_kw_public() -> Seq<u8> {
    seq![112u8, 117u8, 98u8, 108u8, 105u8, 99u8]
}

pub open spec fn spec_kw_protected() -> Seq<u8> {
    seq![112u8, 114u8, 111u8, 116u8, 101u8, 99u8, 116u8, 101u8, 100u8]
}

pub open spec fn spec_kw_private() -> Seq<u8> {
    seq![112u8, 114u8, 105u8, 118u8, 97u8, 116u8, 101u8]
}

/// The marker kind a line opens, if any: a signals marker wins over a
/// slots marker, which wins over a plain visibility marker.
pub open spec fn spec_line_kind(l: Seq<u8>) -> Option<SectionType> {
    if spec_contains_marker(l, spec_kw_signals()) || spec_contains_marker(
        l,
        spec_kw_q_signals(),
    ) {
        Some(SectionType::Signals)
    } else if spec_contains_marker(l, spec_kw_slots()) || spec_contains_marker(
        l,
        spec_kw_q_slots(),
    ) {
        Some(SectionType::Slots)
    } else if spec_contains_marker(l, spec_kw_public()) || spec_contains_marker(
        l,
        spec_kw_protected(),
    ) || spec_contains_marker(l, spec_kw_private()) {
        Some(SectionType::Other)
    } else {
        None
    }
}

/// The index of the first newline byte of `t`, or `t.len()` if none.
pub open spec fn spec_first_nl(t: Seq<u8>) -> int
    decreases t.len(),
{
    if t.len() == 0 {
        0
    } else if t[0] == 10 {
        0
    } else {
        1 + spec_first_nl(t.drop_first())
    }
}

pub proof fn lemma_first_nl(t: Seq<u8>)
    ensures
        0 <= spec_first_nl(t) <= t.len(),
        spec_first_nl(t) < t.len() ==> t[spec_first_nl(t)] == 10,
        forall|j: int| 0 <= j < spec_first_nl(t) ==> t[j] != 10,
    decreases t.len(),
{
    if t.len() > 0 && t[0] != 10 {
        lemma_first_nl(t.drop_first());
        assert(forall|j: int| 0 <= j < t.drop_first().len() ==> t.drop_first()[j] == t[j + 1]);
        let f = spec_first_nl(t);
        assert(f == 1 + spec_first_nl(t.drop_first()));
        if f < t.len() {
            assert(t.drop_first()[f - 1] == 10);
        }
        assert forall|j: int| 0 <= j < f implies t[j] != 10 by {
            if j > 0 {
                assert(t.drop_first()[j - 1] != 10);
            }
        }
    }
}

/// An index with no newline before it and a newline (or the end) at it
/// is the first newline.
pub proof fn lemma_first_nl_at(t: Seq<u8>, k: int)
    requires
        0 <= k <= t.len(),
        k < t.len() ==> t[k] == 10,
        k == t.len() || t[k] == 10,
        forall|j: int| 0 <= j < k ==> t[j] != 10,
    ensures
        spec_first_nl(t) == k,
    decreases t.len(),
{
    if t.len() > 0 && t[0] != 10 {
        assert(k > 0);
        lemma_first_nl_at(t.drop_first(), k - 1);
    }
}

/// The lines of a header text: the segments between newline bytes, with
/// one (possibly empty) final segment after the last newline.
pub open spec fn spec_lines(t: Seq<u8>) -> Seq<Seq<u8>>
    decreases t.len(),
{
    let i = spec_first_nl(t);
    if i == t.len() {
        seq![t]
    } else {
        proof {
            lemma_first_nl(t);
        }
        seq![t.take(i)] + spec_lines(t.skip(i + 1))
    }
}

/// The markers of a sequence of lines, numbered from `start`.
pub open spec fn spec_markers_from(lines: Seq<Seq<u8>>, start: int) -> Seq<Section>
    decreases lines.len(),
{
    if lines.len() == 0 {
        Seq::empty()
    } else {
        (match spec_line_kind(lines[0]) {
            Some(k) => seq![Section { line: start as u64, section_type: k }],
            None => Seq::<Section>::empty(),
        }) + spec_markers_from(lines.drop_first(), start + 1)
    }
}

/// The section markers of a header text, in file order.
pub open spec fn spec_scan(t: Seq<u8>) -> Seq<Section> {
    spec_markers_from(spec_lines(t), 0)
}

/// Whether `kw` with optional whitespace and a colon stands at
/// position `i` of `line`.
#[verifier::loop_isolation(false)]
fn marker_match_at(line: &Vec<u8>, i: usize, kw: &Vec<u8>) -> (r: bool)
    requires
        i <= line@.len(),
    ensures
        r == spec_marker_at(line@, kw@, i as int),
{
    if kw.len() > line.len() - i {
        assert(!spec_marker_at(line@, kw@, i as int));
        return false;
    }
    let kend = i + kw.len();
    let mut p: usize = 0;
    while p < kw.len()
        invariant
            0 <= p <= kw.len(),
            i + kw.len() <= line@.len(),
            kend == i + kw.len(),
            forall|q: int| 0 <= q < p ==> line@[i + q] == kw@[q],
        decreases kw.len() - p,
    {
        if line[i + p] != kw[p] {
            proof {
                assert(line@.subrange(i as int, kend as int) != kw@) by {
                    assert(line@.subrange(i as int, kend as int)[p as int] == line@[i + p]);
                }
            }
            return false;
        }
        p += 1;
    }
    proof {
        assert(line@.subrange(i as int, kend as int) =~= kw@);
    }
    let mut j: usize = kend;
    while j < line.len()
        invariant
            kend <= j <= line@.len(),
            forall|k: int| kend <= k < j ==> spec_is_space(line@[k]),
        decreases line@.len() - j,
    {
        let b = line[j];
        if b == 58 {
            proof {
                assert(spec_marker_at(line@, kw@, i as int));
            }
            return true;
        }
        if b == 32 || b == 9 || b == 11 || b == 12 || b == 13 {
            j += 1;
        } else {
            proof {
                assert(!spec_marker_at(line@, kw@, i as int)) by {
                    if spec_marker_at(line@, kw@, i as int) {
                        let jj = choose|jj: int|
                            kend <= jj < line@.len() && line@[jj] == 58 && (forall|k: int|
                                kend <= k < jj ==> spec_is_space(line@[k]));
                        assert(jj != j as int);
                        if jj < j as int {
                            assert(spec_is_space(58));
                        } else {
                            assert(spec_is_space(line@[j as int]));
                        }
                    }
                }
            }
            return false;
        }
    }
    proof {
        assert(!spec_marker_at(line@, kw@, i as int)) by {
            if spec_marker_at(line@, kw@, i as int) {
                let jj = choose|jj: int|
                    kend <= jj < line@.len() && line@[jj] == 58 && (forall|k: int|
                        kend <= k < jj ==> spec_is_space(line@[k]));
                assert(spec_is_space(line@[jj]));
            }
        }
    }
    false
}

/// Whether `kw` with optional whitespace and a colon occurs anywhere in
/// `line`.
#[verifier::loop_isolation(false)]
fn contains_marker(line: &Vec<u8>, kw: &Vec<u8>) -> (r: bool)
    requires
        kw@.len() >= 1,
    ensures
        r == spec_contains_marker(line@, kw@),
{
    let mut i: usize = 0;
    while i < line.len()
        invariant
            0 <= i <= line@.len(),
            forall|q: int| 0 <= q < i ==> !spec_marker_at(line@, kw@, q),
        decreases line@.len() - i,
    {
        if marker_match_at(line, i, kw) {
            return true;
        }
        i += 1;
    }
    proof {
        assert(!spec_contains_marker(line@, kw@)) by {
            if spec_contains_marker(line@, kw@) {
                let q = choose|q: int| spec_marker_at(line@, kw@, q);
                assert(q + kw@.len() <= line@.len());
                assert(0 <= q < line@.len());
            }
        }
    }
    false
}

/// Builds the byte sequence of one section keyword, selected by `which`:
/// 0 `signals`, 1 `Q_SIGNALS`, 2 `slots`, 3 `Q_SLOTS`, 4 `public`,
/// 5 `protected`, otherwise `private`.
fn keyword(which: u8) -> (r: Vec<u8>)
    ensures
        which == 0 ==> r@ == spec_kw_signals(),
        which == 1 ==> r@ == spec_kw_q_signals(),
        which == 2 ==> r@ == spec_kw_slots(),
        which == 3 ==> r@ == spec_kw_q_slots(),
        which == 4 ==> r@ == spec_kw_public(),
        which == 5 ==> r@ == spec_kw_protected(),
        which >= 6 ==> r@ == spec_kw_private(),
        r@.len() >= 1,
{
    let mut v: Vec<u8> = Vec::new();
    if which == 0 {
        v.push(115);
        v.push(105);
        v.push(103);
        v.push(110);
        v.push(97);
        v.push(108);
        v.push(115);
        assert(v@ =~= spec_kw_signals());
    } else if which == 1 {
        v.push(81);
        v.push(95);
        v.push(83);
        v.push(73);
        v.push(71);
        v.push(78);
        v.push(65);
        v.push(76);
        v.push(83);
        assert(v@ =~= spec_kw_q_signals());
    } else if which == 2 {
        v.push(115);
        v.push(108);
        v.push(111);
        v.push(116);
        v.push(115);
        assert(v@ =~= spec_kw_slots());
    } else if which == 3 {
        v.push(81);
        v.push(95);
        v.push(83);
        v.push(76);
        v.push(79);
        v.push(84);
        v.push(83);
        assert(v@ =~= spec_kw_q_slots());
    } else if which == 4 {
        v.push(112);
        v.push(117);
        v.push(98);
        v.push(108);
        v.push(105);
        v.push(99);
        assert(v@ =~= spec_kw_public());
    } else if which == 5 {
        v.push(112);
        v.push(114);
        v.push(111);
        v.push(116);
        v.push(101);
        v.push(99);
        v.push(116);
        v.push(101);
        v.push(100);
        assert(v@ =~= spec_kw_protected());
    } else {
        v.push(112);
        v.push(114);
        v.push(105);
        v.push(118);
        v.push(97);
        v.push(116);
        v.push(101);
        assert(v@ =~= spec_kw_private());
    }
    v
}

/// The marker kind one line opens, if any.
fn line_kind(line: &Vec<u8>) -> (r: Option<SectionType>)
    ensures
        r == spec_line_kind(line@),
{
    if contains_marker(line, &keyword(0)) || contains_marker(line, &keyword(1)) {
        Some(SectionType::Signals)
    } else if contains_marker(line, &keyword(2)) || contains_marker(line, &keyword(3)) {
        Some(SectionType::Slots)
    } else if contains_marker(line, &keyword(4)) || contains_marker(line, &keyword(5))
        || contains_marker(line, &keyword(6)) {
        Some(SectionType::Other)
    } else {
        None
    }
}

/// Scans a header text line by line and returns every section marker,
/// in file order, with 0-based line numbers.
#[verifier::loop_isolation(false)]
#[verifier::rlimit(60)]
pub fn scan_header_sections(text: &Vec<u8>) -> (r: Vec<Section>)
    ensures
        r@ == spec_scan(text@),
{
    let mut out: Vec<Section> = Vec::new();
    let n = text.len();
    let mut pos: usize = 0;
    let mut line_num: u64 = 0;
    proof {
        assert(text@.skip(0) =~= text@);
    }
    loop
        invariant
            0 <= pos <= n,
            n == text@.len(),
            line_num <= pos,
            out@ + spec_markers_from(spec_lines(text@.skip(pos as int)), line_num as int)
                == spec_scan(text@),
        decreases n - pos + 1,
    {
        let ghost rest = text@.skip(pos as int);
        // find the end of the current line
        let mut end: usize = pos;
        while end < n && text[end] != 10
            invariant
                pos <= end <= n,
                forall|j: int| pos <= j < end ==> text@[j] != 10,
            decreases n - end,
        {
            end += 1;
        }
        proof {
            assert(forall|j: int| 0 <= j < end - pos ==> rest[j] == text@[pos + j]);
            lemma_first_nl_at(rest, end - pos);
        }
        // copy the line
        let mut line: Vec<u8> = Vec::new();
        let mut q: usize = pos;
        while q < end
            invariant
                pos <= q <= end,
                end <= n,
                line@.len() == q - pos,
                forall|j: int| 0 <= j < q - pos ==> line@[j] == text@[pos + j],
            decreases end - q,
        {
            line.push(text[q]);
            q += 1;
        }
        proof {
            if end < n {
                assert(line@ =~= rest.take(end - pos));
            } else {
                assert(line@ =~= rest);
            }
        }
        let ghost out_before = out@;
        match line_kind(&line) {
            Some(k) => {
                out.push(Section { line: line_num, section_type: k });
                proof {
                    assert(out@ =~= out_before + seq![
                        Section { line: line_num, section_type: k },
                    ]);
                }
            },
            None => {
                proof {
                    assert(out@ =~= out_before + Seq::<Section>::empty());
                }
            },
        }
        if end == n {
            proof {
                assert(spec_lines(rest) == seq![rest]);
                assert(spec_lines(rest)[0] == rest);
                assert(spec_lines(rest).drop_first() =~= Seq::<Seq<u8>>::empty());
                assert(spec_markers_from(Seq::<Seq<u8>>::empty(), line_num as int + 1)
                    =~= Seq::<Section>::empty());
                assert(spec_markers_from(spec_lines(rest), line_num as int) =~= (
                match spec_line_kind(rest) {
                    Some(k) => seq![Section { line: line_num, section_type: k }],
                    None => Seq::<Section>::empty(),
                }));
                assert(out@ =~= spec_scan(text@));
            }
            return out;
        }
        proof {
            assert(spec_lines(rest) == seq![rest.take(end - pos)] + spec_lines(
                rest.skip(end - pos + 1),
            ));
            assert(rest.skip(end - pos + 1) =~= text@.skip(end + 1));
            assert(spec_lines(rest)[0] == rest.take(end - pos));
            assert(spec_lines(rest).drop_first() =~= spec_lines(text@.skip(end + 1)));
            assert(out@ + spec_markers_from(
                spec_lines(text@.skip(end + 1)),
                line_num as int + 1,
            ) =~= spec_scan(text@));
        }
        pos = end + 1;
        line_num = line_num + 1;
    }
}

/// The markers retained for a class: those at or after its declaration
/// line.
pub open spec fn spec_sections_for_class(ms: Seq<Section>, class_line: u64) -> Seq<Section> {
    ms.filter(|s: Section| s.line >= class_line)
}

/// The markers of `markers` at or after line `class_line`, in order.
#[verifier::loop_isolation(false)]
pub fn sections_for_class(markers: &Vec<Section>, class_line: u64) -> (r: Vec<Section>)
    ensures
        r@ == spec_sections_for_class(markers@, class_line),
{
    let ghost pred = |s: Section| s.line >= class_line;
    let mut out: Vec<Section> = Vec::new();
    let mut i: usize = 0;
    proof {
        reveal_with_fuel(Seq::<Section>::filter, 2);
        assert(markers@.take(0).filter(pred) =~= Seq::<Section>::empty());
        assert(out@ =~= Seq::<Section>::empty());
    }
    while i < markers.len()
        invariant
            0 <= i <= markers@.len(),
            out@ == markers@.take(i as int).filter(pred),
        decreases markers@.len() - i,
    {
        proof {
            reveal_with_fuel(Seq::<Section>::filter, 2);
            assert(markers@.take(i + 1).drop_last() =~= markers@.take(i as int));
            assert(markers@.take(i + 1).last() == markers@[i as int]);
        }
        if markers[i].line >= class_line {
            out.push(markers[i]);
        }
        i += 1;
    }
    proof {
        assert(markers@.take(markers@.len() as int) =~= markers@);
    }
    out
}

/// The kind of the last marker strictly before `line`, if any.
pub open spec fn spec_section_for_line(ms: Seq<Section>, line: u64) -> Option<SectionType>
    decreases ms.len(),
{
    if ms.len() == 0 {
        None
    } else if ms.last().line < line {
        Some(ms.last().section_type)
    } else {
        spec_section_for_line(ms.drop_last(), line)
    }
}

/// The kind of the last marker of `markers` strictly before `line`.
#[verifier::loop_isolation(false)]
pub fn section_for_line(markers: &Vec<Section>, line: u64) -> (r: Option<SectionType>)
    ensures
        r == spec_section_for_line(markers@, line),
{
    let mut i: usize = markers.len();
    proof {
        assert(markers@.take(markers@.len() as int) =~= markers@);
    }
    while i > 0
        invariant
            0 <= i <= markers@.len(),
            spec_section_for_line(markers@.take(i as int), line) == spec_section_for_line(
                markers@,
                line,
            ),
        decreases i,
    {
        proof {
            assert(markers@.take(i as int).last() == markers@[i - 1]);
            assert(markers@.take(i as int).drop_last() =~= markers@.take(i - 1));
        }
        if markers[i - 1].line < line {
            return Some(markers[i - 1].section_type);
        }
        i -= 1;
    }
    proof {
        assert(markers@.take(0).len() == 0);
    }
    None
}

/// Transitive inheritance, bounded by `fuel` recursion levels: some
/// declaration of `derived` has a direct base called `base`, or a direct
/// base from which `base` is transitively inherited.
pub open spec fn spec_inherits_fueled(
    d: CppDataV,
    derived: Seq<char>,
    base: Seq<char>,
    fuel: nat,
) -> bool
    decreases fuel,
{
    exists|i: int, k: int|
        0 <= i < d.types.len() && d.types[i].name == derived && 0 <= k < spec_kind_bases(
            d.types[i].kind,
        ).len() && spec_kind_bases(d.types[i].kind)[k].base_type.base is Class && {
            let bn = spec_kind_bases(d.types[i].kind)[k].base_type.base->Class_0.name;
            bn == base || (fuel > 0 && spec_inherits_fueled(d, bn, base, (fuel - 1) as nat))
        }
}

/// Whether `derived` inherits `base`, directly or indirectly; the
/// recursion bound `types.len()` covers every acyclic hierarchy.
pub open spec fn spec_inherits(d: CppDataV, derived: Seq<char>, base: Seq<char>) -> bool {
    spec_inherits_fueled(d, derived, base, d.types.len())
}

#[verifier::loop_isolation(false)]
fn inherits_fueled(data: &CppData, derived: &String, base: &String, fuel: usize) -> (r: bool)
    ensures
        r == spec_inherits_fueled(data@, derived@, base@, fuel as nat),
    decreases fuel,
{
    let nt = data.types.len();
    let mut i: usize = 0;
    while i < nt
        invariant
            0 <= i <= nt,
            nt == data.types@.len(),
            forall|i2: int, k2: int|
                0 <= i2 < i && 0 <= k2 < spec_kind_bases(data@.types[i2].kind).len() ==> !(
                data@.types[i2].name == derived@ && spec_kind_bases(data@.types[i2].kind)[k2]
                    .base_type.base is Class && {
                    let bn = spec_kind_bases(data@.types[i2].kind)[k2].base_type.base
                        ->Class_0.name;
                    bn == base@ || (fuel > 0 && spec_inherits_fueled(
                        data@,
                        bn,
                        base@,
                        (fuel - 1) as nat,
                    ))
                }),
        decreases nt - i,
    {
        if data.types[i].name == *derived {
            match &data.types[i].kind {
                crate::model::CppTypeKind::Class { bases, .. } => {
                    let nb = bases.len();
                    let mut k: usize = 0;
                    while k < nb
                        invariant
                            0 <= k <= nb,
                            nb == bases@.len(),
                            spec_kind_bases(data@.types[i as int].kind)
                                == crate::model::view_base_seq(bases@),
                            forall|k2: int|
                                0 <= k2 < k ==> !(spec_kind_bases(data@.types[i as int].kind)[k2]
                                    .base_type.base is Class && {
                                    let bn = spec_kind_bases(data@.types[i as int].kind)[k2]
                                        .base_type.base->Class_0.name;
                                    bn == base@ || (fuel > 0 && spec_inherits_fueled(
                                        data@,
                                        bn,
                                        base@,
                                        (fuel - 1) as nat,
                                    ))
                                }),
                        decreases nb - k,
                    {
                        if let crate::model::CppTypeBase::Class(cb) = &bases[k].base_type.base {
                            proof {
                                assert(spec_kind_bases(data@.types[i as int].kind)[k as int]
                                    .base_type.base is Class);
                                assert(spec_kind_bases(data@.types[i as int].kind)[k as int]
                                    .base_type.base->Class_0.name == cb.name@);
                            }
                            let ghost gi: int = i as int;
                            let ghost gk: int = k as int;
                            let ghost gbn = spec_kind_bases(data@.types[gi].kind)[gk].base_type.base->Class_0.name;
                            if cb.name == *base {
                                proof {
                                    assert(0 <= gi && gi < data@.types.len()
                                        && data@.types[gi].name == derived@ && 0 <= gk
                                        && gk < spec_kind_bases(data@.types[gi].kind).len()
                                        && spec_kind_bases(data@.types[gi].kind)[gk]
                                        .base_type.base is Class && gbn == base@);
                                    assert(spec_inherits_fueled(data@, derived@, base@, fuel as nat));
                                }
                                return true;
                            }
                            if fuel > 0 {
                                if inherits_fueled(data, &cb.name, base, fuel - 1) {
                                    proof {
                                        assert(0 <= gi && gi < data@.types.len()
                                            && data@.types[gi].name == derived@ && 0 <= gk
                                            && gk < spec_kind_bases(data@.types[gi].kind).len()
                                            && spec_kind_bases(data@.types[gi].kind)[gk]
                                            .base_type.base is Class
                                            && spec_inherits_fueled(data@, gbn, base@, (fuel - 1) as nat));
                                        assert(spec_inherits_fueled(data@, derived@, base@, fuel as nat));
                                    }
                                    return true;
                                }
                            }
                        }
                        k += 1;
                    }
                },
                _ => {},
            }
        }
        i += 1;
    }
    false
}

/// Whether the type called `derived_class_name` inherits the type
/// called `base_class_name`, directly or indirectly.
pub fn inherits(data: &CppData, derived_class_name: &String, base_class_name: &String) -> (r:
    bool)
    ensures
        r == spec_inherits(data@, derived_class_name@, base_class_name@),
{
    let fuel = data.types.len();
    inherits_fueled(data, derived_class_name, base_class_name, fuel)
}

/// Whether a type declaration makes its include file relevant to the
/// classifier: parsed from a header, declaring a class that inherits the
/// designated object base.
pub open spec fn spec_needed_pred(d: CppDataV, base: Seq<char>) -> spec_fn(CppTypeDataV) -> bool {
    |t: CppTypeDataV|
        t.origin_location is Some && t.kind is Class && spec_inherits(d, t.name, base)
}

/// The header files the classifier reads: the origin files of the first
/// `i` type declarations matching `spec_needed_pred`, first occurrences
/// kept.
pub open spec fn spec_needed_files(d: CppDataV, base: Seq<char>, i: int) -> Seq<Seq<char>>
    decreases i,
{
    if i <= 0 {
        Seq::empty()
    } else {
        let prev = spec_needed_files(d, base, i - 1);
        let t = d.types[i - 1];
        if spec_needed_pred(d, base)(t) && !prev.contains(t.origin_location->0.include_file_path) {
            prev.push(t.origin_location->0.include_file_path)
        } else {
            prev
        }
    }
}

/// The include files whose headers the classifier needs to read: the
/// origin files of every parsed class inheriting `object_base`, in
/// first-occurrence order.
#[verifier::loop_isolation(false)]
pub fn signal_slot_include_files(data: &CppData, object_base: &String) -> (r: Vec<String>)
    ensures
        view_string_seq(r@) == spec_needed_files(data@, object_base@, data@.types.len() as int),
{
    let mut out: Vec<String> = Vec::new();
    let nt = data.types.len();
    let mut i: usize = 0;
    proof {
        assert(view_string_seq(out@) =~= Seq::<Seq<char>>::empty());
    }
    while i < nt
        invariant
            0 <= i <= nt,
            nt == data.types@.len(),
            view_string_seq(out@) == spec_needed_files(data@, object_base@, i as int),
        decreases nt - i,
    {
        let t = &data.types[i];
        let mut wanted = false;
        match &t.origin_location {
            Some(loc) => {
                if t.is_class() {
                    if inherits(data, &t.name, object_base) {
                        wanted = true;
                    }
                }
            },
            None => {},
        }
        proof {
            assert(wanted == spec_needed_pred(data@, object_base@)(data@.types[i as int]));
        }
        if wanted {
            let path = match &t.origin_location {
                Some(loc) => loc.include_file_path.clone(),
                None => String::new(),
            };
            let ghost acc = view_string_seq(out@);
            if !crate::model::CppData::string_vec_contains(&out, &path) {
                out.push(path);
                proof {
                    assert(view_string_seq(out@) =~= acc.push(
                        data@.types[i as int].origin_location->0.include_file_path,
                    ));
                }
            }
        }
        i += 1;
    }
    out
}

/// The first header of `hs` with the given path.
pub open spec fn spec_find_header(hs: Seq<HeaderFileV>, path: Seq<char>) -> Option<HeaderFileV> {
    spec_find_first(hs, |h: HeaderFileV| h.include_file_path == path)
}

/// The markers of the header with the given path; empty when no such
/// header was provided.
pub open spec fn spec_file_markers(hs: Seq<HeaderFileV>, path: Seq<char>) -> Seq<Section> {
    match spec_find_header(hs, path) {
        Some(h) => spec_scan(h.text),
        None => Seq::empty(),
    }
}

/// The marker list that applies to the class called `cname`: the markers
/// of the first parsed type declaration of that name whose origin file
/// is among the needed files and produced markers, restricted to the
/// class's own scope (markers at or after its declaration line).
pub open spec fn spec_class_pred(d: CppDataV, hs: Seq<HeaderFileV>, base: Seq<char>, cname: Seq<char>) -> spec_fn(CppTypeDataV) -> bool {
    |t: CppTypeDataV|
        t.name == cname && t.origin_location is Some && spec_needed_files(
            d,
            base,
            d.types.len() as int,
        ).contains(t.origin_location->0.include_file_path) && spec_file_markers(
            hs,
            t.origin_location->0.include_file_path,
        ).len() > 0
}

pub open spec fn spec_class_markers(
    d: CppDataV,
    hs: Seq<HeaderFileV>,
    base: Seq<char>,
    cname: Seq<char>,
) -> Option<Seq<Section>> {
    match spec_find_first(d.types, spec_class_pred(d, hs, base, cname)) {
        Some(t) => Some(
            spec_sections_for_class(
                spec_file_markers(hs, t.origin_location->0.include_file_path),
                t.origin_location->0.line,
            ),
        ),
        None => None,
    }
}

/// A method after classification: a parsed class member whose nearest
/// preceding in-scope marker opens a signals (slots) section gets
/// `is_signal` (`is_slot`) set; everything else is unchanged.
pub open spec fn spec_classified_method(
    d: CppDataV,
    hs: Seq<HeaderFileV>,
    base: Seq<char>,
    m: CppMethodV,
) -> CppMethodV {
    if m.origin_location is Some && m.class_membership is Some {
        match spec_class_markers(d, hs, base, m.class_membership->0.class_type.name) {
            Some(ms) => match spec_section_for_line(ms, m.origin_location->0.line) {
                Some(SectionType::Signals) => CppMethodV {
                    class_membership: Some(
                        crate::model::CppMethodClassMembershipV {
                            is_signal: true,
                            ..m.class_membership->0
                        },
                    ),
                    ..m
                },
                Some(SectionType::Slots) => CppMethodV {
                    class_membership: Some(
                        crate::model::CppMethodClassMembershipV {
                            is_slot: true,
                            ..m.class_membership->0
                        },
                    ),
                    ..m
                },
                _ => m,
            },
            None => m,
        }
    } else {
        m
    }
}

/// The first needed file for which no header was provided, if any.
pub open spec fn spec_first_missing(d: CppDataV, hs: Seq<HeaderFileV>, base: Seq<char>) -> Option<
    Seq<char>,
> {
    spec_find_first(
        spec_needed_files(d, base, d.types.len() as int),
        |p: Seq<char>| spec_find_header(hs, p) is None,
    )
}

/// The marker list applying to the class called `cname`, computed from
/// the needed-file list and the markers scanned per needed file.
#[verifier::loop_isolation(false)]
#[verifier::rlimit(60)]
fn class_markers(
    data: &CppData,
    headers: &Vec<HeaderFile>,
    needed: &Vec<String>,
    markers_by_file: &Vec<Vec<Section>>,
    cname: &String,
    Ghost(base): Ghost<Seq<char>>,
) -> (r: Option<Vec<Section>>)
    requires
        view_string_seq(needed@) == spec_needed_files(data@, base, data@.types.len() as int),
        markers_by_file@.len() == needed@.len(),
        forall|j: int|
            0 <= j < needed@.len() ==> (#[trigger] markers_by_file@[j])@ == spec_file_markers(
                view_header_seq(headers@),
                view_string_seq(needed@)[j],
            ),
    ensures
        match r {
            Some(v) => spec_class_markers(data@, view_header_seq(headers@), base, cname@)
                == Some(v@),
            None => spec_class_markers(data@, view_header_seq(headers@), base, cname@) is None,
        },
{
    let ghost hs = view_header_seq(headers@);
    let ghost pred = spec_class_pred(data@, hs, base, cname@);
    let nt = data.types.len();
    let mut ti: usize = 0;
    while ti < nt
        invariant
            0 <= ti <= nt,
            nt == data.types@.len(),
            forall|j: int| 0 <= j < ti ==> !pred(data@.types[j]),
        decreases nt - ti,
    {
        let t = &data.types[ti];
        let mut matches_pred = false;
        let mut fidx: usize = 0;
        match &t.origin_location {
            Some(loc) => {
                if t.name == *cname {
                    // find the file among the needed files
                    let mut fi: usize = 0;
                    let nn = needed.len();
                    while fi < nn
                        invariant
                            0 <= fi <= nn,
                            nn == needed@.len(),
                            forall|q: int|
                                0 <= q < fi ==> view_string_seq(needed@)[q]
                                    != data@.types[ti as int].origin_location->0.include_file_path,
                        decreases nn - fi,
                    {
                        if needed[fi] == loc.include_file_path {
                            break;
                        }
                        fi += 1;
                    }
                    if fi < needed.len() {
                        proof {
                            assert(view_string_seq(needed@)[fi as int] == data@.types[
                                ti as int].origin_location->0.include_file_path);
                            assert(view_string_seq(needed@).contains(
                                data@.types[ti as int].origin_location->0.include_file_path,
                            ));
                        }
                        if markers_by_file[fi].len() > 0 {
                            proof {
                                assert((markers_by_file@[fi as int])@ == spec_file_markers(
                                    hs,
                                    data@.types[ti as int].origin_location->0.include_file_path,
                                ));
                            }
                            matches_pred = true;
                            fidx = fi;
                        } else {
                            proof {
                                assert(spec_file_markers(
                                    hs,
                                    data@.types[ti as int].origin_location->0.include_file_path,
                                ).len() == 0);
                            }
                        }
                    } else {
                        proof {
                            assert(!view_string_seq(needed@).contains(
                                data@.types[ti as int].origin_location->0.include_file_path,
                            )) by {
                                if view_string_seq(needed@).contains(
                                    data@.types[ti as int].origin_location->0.include_file_path,
                                ) {
                                    let q = choose|q: int|
                                        0 <= q < needed@.len() && view_string_seq(needed@)[q]
                                            == data@.types[
                                            ti as int].origin_location->0.include_file_path;
                                }
                            }
                        }
                    }
                }
            },
            None => {},
        }
        proof {
            assert(matches_pred == pred(data@.types[ti as int]));
        }
        if matches_pred {
            proof {
                crate::database::lemma_find_first_at(data@.types, pred, ti as int);
            }
            let line = match &t.origin_location {
                Some(loc) => loc.line,
                None => 0,
            };
            let r = sections_for_class(&markers_by_file[fidx], line);
            return Some(r);
        }
        ti += 1;
    }
    proof {
        crate::database::lemma_find_first_none(data@.types, pred);
    }
    None
}

/// Scans the given header texts and sets `is_signal` / `is_slot` on
/// every parsed class member whose nearest preceding in-scope section
/// marker opens a signals or slots section. `headers` must provide the
/// text of every include file named by a parsed class that inherits
/// `object_base`; the first needed file that is missing aborts the run
/// with its path, leaving the database unchanged.
#[verifier::loop_isolation(false)]
#[verifier::rlimit(60)]
pub fn detect_signals_and_slots(
    data: &mut CppData,
    headers: &Vec<HeaderFile>,
    object_base: &String,
) -> (r: Result<(), String>)
    ensures
        r is Ok <==> spec_first_missing(old(data)@, view_header_seq(headers@), object_base@)
            is None,
        r is Err ==> final(data)@ == old(data)@ && (r->Err_0)@ == spec_first_missing(
            old(data)@,
            view_header_seq(headers@),
            object_base@,
        )->0,
        r is Ok ==> {
            &&& final(data)@.types == old(data)@.types
            &&& final(data)@.template_instantiations == old(data)@.template_instantiations
            &&& final(data)@.methods.len() == old(data)@.methods.len()
            &&& forall|i: int|
                0 <= i < old(data)@.methods.len() ==> final(data)@.methods[i]
                    == spec_classified_method(
                    old(data)@,
                    view_header_seq(headers@),
                    object_base@,
                    old(data)@.methods[i],
                )
        },
{
    let ghost d0 = old(data)@;
    let ghost hs = view_header_seq(headers@);
    let ghost missing_pred = |p: Seq<char>| spec_find_header(hs, p) is None;
    let needed = signal_slot_include_files(data, object_base);
    let ghost gneeded = view_string_seq(needed@);
    let mut markers_by_file: Vec<Vec<Section>> = Vec::new();
    let nn = needed.len();
    let mut fi: usize = 0;
    while fi < nn
        invariant
            0 <= fi <= nn,
            nn == needed@.len(),
            *data == *old(data),
            gneeded == view_string_seq(needed@),
            gneeded == spec_needed_files(d0, object_base@, d0.types.len() as int),
            markers_by_file@.len() == fi,
            forall|j: int| 0 <= j < fi ==> !missing_pred(gneeded[j]),
            forall|j: int|
                0 <= j < fi ==> (#[trigger] markers_by_file@[j])@ == spec_file_markers(
                    hs,
                    gneeded[j],
                ),
        decreases nn - fi,
    {
        let ghost hpred = |h: HeaderFileV| h.include_file_path == gneeded[fi as int];
        let nh = headers.len();
        let mut hi: usize = 0;
        while hi < nh
            invariant
                0 <= hi <= nh,
                nh == headers@.len(),
                forall|q: int| 0 <= q < hi ==> !hpred(hs[q]),
            decreases nh - hi,
        {
            if headers[hi].include_file_path == needed[fi] {
                proof {
                    assert(hpred(hs[hi as int]));
                }
                break;
            }
            proof {
                assert(!hpred(hs[hi as int]));
            }
            hi += 1;
        }
        if hi == nh {
            proof {
                crate::database::lemma_find_first_none(hs, hpred);
                assert(missing_pred(gneeded[fi as int]));
                crate::database::lemma_find_first_at(gneeded, missing_pred, fi as int);
            }
            return Err(needed[fi].clone());
        }
        proof {
            crate::database::lemma_find_first_at(hs, hpred, hi as int);
            assert(spec_find_header(hs, gneeded[fi as int]) == Some(hs[hi as int]));
        }
        let ms = scan_header_sections(&headers[hi].text);
        markers_by_file.push(ms);
        fi += 1;
    }
    proof {
        crate::database::lemma_find_first_none(gneeded, missing_pred);
    }
    // rebuild the method list with the flags set
    let nm = data.methods.len();
    let mut out: Vec<CppMethod> = Vec::new();
    let mut mi: usize = 0;
    while mi < nm
        invariant
            0 <= mi <= nm,
            nm == data.methods@.len(),
            *data == *old(data),
            gneeded == view_string_seq(needed@),
            gneeded == spec_needed_files(d0, object_base@, d0.types.len() as int),
            markers_by_file@.len() == gneeded.len(),
            forall|j: int|
                0 <= j < gneeded.len() ==> (#[trigger] markers_by_file@[j])@
                    == spec_file_markers(hs, gneeded[j]),
            out@.len() == mi,
            forall|j: int|
                0 <= j < mi ==> view_method(out@[j]) == spec_classified_method(
                    d0,
                    hs,
                    object_base@,
                    d0.methods[j],
                ),
        decreases nm - mi,
    {
        let m = &data.methods[mi];
        let ghost mv = d0.methods[mi as int];
        let mut nm2 = copy_method(m);
        let mut has_origin = false;
        let mut mline: u64 = 0;
        match &m.origin_location {
            Some(loc) => {
                has_origin = true;
                mline = loc.line;
            },
            None => {},
        }
        if has_origin {
            match &m.class_membership {
                Some(info) => {
                    let cname = info.class_type.name.clone();
                    match class_markers(
                        data,
                        headers,
                        &needed,
                        &markers_by_file,
                        &cname,
                        Ghost(object_base@),
                    ) {
                        Some(ms) => {
                            match section_for_line(&ms, mline) {
                                Some(SectionType::Signals) => {
                                    let mb = copy_membership(info);
                                    nm2.class_membership = Some(
                                        CppMethodClassMembership { is_signal: true, ..mb },
                                    );
                                },
                                Some(SectionType::Slots) => {
                                    let mb = copy_membership(info);
                                    nm2.class_membership = Some(
                                        CppMethodClassMembership { is_slot: true, ..mb },
                                    );
                                },
                                _ => {},
                            }
                        },
                        None => {},
                    }
                },
                None => {},
            }
        }
        proof {
            assert(view_method(nm2) =~~= spec_classified_method(d0, hs, object_base@, mv));
        }
        out.push(nm2);
        mi += 1;
    }
    data.methods = out;
    Ok(())
}

} // verus!
