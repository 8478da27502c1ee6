//! Declaration scanning over shader source text.
//!
//! A declaration is: a declare-kind keyword (`attribute` or `uniform`), one or
//! more whitespace bytes, one non-whitespace type token, one or more whitespace
//! bytes, and one or more name bytes ended by the statement terminator `;`.
//! The scan walks the source left to right and, after a declaration, resumes
//! past its terminator, so matches never overlap.

use vstd::prelude::*;

verus! {

/// ASCII whitespace, as it separates tokens in shader source.
pub open spec fn is_space(b: u8) -> bool {
    b == 32 || b == 9 || b == 10 || b == 13 || b == 11 || b == 12
}

/// The statement terminator `;`.
pub open spec fn is_term(b: u8) -> bool {
    b == 59
}

/// First index at or after `i` that does not hold whitespace (or the end).
pub open spec fn ws_end(src: Seq<u8>, i: int) -> int
    decreases src.len() - i when 0 <= i <= src.len()
{
    if i >= src.len() {
        i
    } else if is_space(src[i]) {
        ws_end(src, i + 1)
    } else {
        i
    }
}

/// First index at or after `i` that holds whitespace (or the end).
pub open spec fn tok_end(src: Seq<u8>, i: int) -> int
    decreases src.len() - i when 0 <= i <= src.len()
{
    if i >= src.len() {
        i
    } else if !is_space(src[i]) {
        tok_end(src, i + 1)
    } else {
        i
    }
}

/// First index at or after `i` that holds the terminator (or the end).
pub open spec fn name_end(src: Seq<u8>, i: int) -> int
    decreases src.len() - i when 0 <= i <= src.len()
{
    if i >= src.len() {
        i
    } else if !is_term(src[i]) {
        name_end(src, i + 1)
    } else {
        i
    }
}

pub proof fn lemma_ws_end(src: Seq<u8>, i: int)
    requires
        0 <= i <= src.len(),
    ensures
        i <= ws_end(src, i) <= src.len(),
        forall|j: int| i <= j < ws_end(src, i) ==> is_space(#[trigger] src[j]),
        ws_end(src, i) == src.len() || !is_space(src[ws_end(src, i)]),
    decreases src.len() - i,
{
    if i < src.len() && is_space(src[i]) {
        lemma_ws_end(src, i + 1);
    }
}

pub proof fn lemma_tok_end(src: Seq<u8>, i: int)
    requires
        0 <= i <= src.len(),
    ensures
        i <= tok_end(src, i) <= src.len(),
        forall|j: int| i <= j < tok_end(src, i) ==> !is_space(#[trigger] src[j]),
        tok_end(src, i) == src.len() || is_space(src[tok_end(src, i)]),
    decreases src.len() - i,
{
    if i < src.len() && !is_space(src[i]) {
        lemma_tok_end(src, i + 1);
    }
}

pub proof fn lemma_name_end(src: Seq<u8>, i: int)
    requires
        0 <= i <= src.len(),
    ensures
        i <= name_end(src, i) <= src.len(),
        forall|j: int| i <= j < name_end(src, i) ==> !is_term(#[trigger] src[j]),
        name_end(src, i) == src.len() || is_term(src[name_end(src, i)]),
    decreases src.len() - i,
{
    if i < src.len() && !is_term(src[i]) {
        lemma_name_end(src, i + 1);
    }
}

/// The keyword `kw` occurs at index `i` of `src`.
pub open spec fn matches_kw(src: Seq<u8>, kw: Seq<u8>, i: int) -> bool {
    &&& 0 <= i
    &&& i + kw.len() <= src.len()
    &&& src.subrange(i, i + kw.len() as int) == kw
}

/// Index where the type token of a declaration at `i` would start.
pub open spec fn type_start(src: Seq<u8>, kw: Seq<u8>, i: int) -> int {
    ws_end(src, i + kw.len() as int)
}

/// Index where the declared name of a declaration at `i` would start.
pub open spec fn name_start(src: Seq<u8>, kw: Seq<u8>, i: int) -> int {
    ws_end(src, tok_end(src, type_start(src, kw, i)))
}

/// Index just past the declared name of a declaration at `i`.
pub open spec fn name_stop(src: Seq<u8>, kw: Seq<u8>, i: int) -> int {
    name_end(src, name_start(src, kw, i))
}

/// A declaration introduced by `kw` starts at index `i` of `src`: the keyword,
/// then at least one whitespace byte, a nonempty type token, at least one
/// whitespace byte, and a nonempty name ended by a terminator inside `src`.
pub open spec fn decl_at(src: Seq<u8>, kw: Seq<u8>, i: int) -> bool {
    let t0 = i + kw.len() as int;
    let t1 = type_start(src, kw, i);
    let t2 = tok_end(src, t1);
    let t3 = name_start(src, kw, i);
    let t4 = name_stop(src, kw, i);
    &&& matches_kw(src, kw, i)
    &&& t1 > t0
    &&& t2 > t1
    &&& t3 > t2
    &&& t4 > t3
    &&& t4 < src.len()
}

/// The name declared by the declaration at `i`.
pub open spec fn decl_name(src: Seq<u8>, kw: Seq<u8>, i: int) -> Seq<u8> {
    src.subrange(name_start(src, kw, i), name_stop(src, kw, i))
}

pub proof fn lemma_decl_bounds(src: Seq<u8>, kw: Seq<u8>, i: int)
    requires
        decl_at(src, kw, i),
    ensures
        i <= i + kw.len() < name_start(src, kw, i) < name_stop(src, kw, i) < src.len(),
        is_term(src[name_stop(src, kw, i)]),
{
    let t0 = i + kw.len() as int;
    lemma_ws_end(src, t0);
    let t1 = ws_end(src, t0);
    lemma_tok_end(src, t1);
    let t2 = tok_end(src, t1);
    lemma_ws_end(src, t2);
    let t3 = ws_end(src, t2);
    lemma_name_end(src, t3);
}

/// The names declared from index `i` on, in source order, skipping past each
/// declaration's terminator before scanning further.
pub open spec fn scan_from(src: Seq<u8>, kw: Seq<u8>, i: int) -> Seq<Seq<u8>>
    decreases src.len() - i when 0 <= i <= src.len() via scan_from_dec
{
    if i >= src.len() {
        Seq::empty()
    } else if decl_at(src, kw, i) {
        seq![decl_name(src, kw, i)] + scan_from(src, kw, name_stop(src, kw, i) + 1)
    } else {
        scan_from(src, kw, i + 1)
    }
}

#[via_fn]
proof fn scan_from_dec(src: Seq<u8>, kw: Seq<u8>, i: int) {
    if 0 <= i && i < src.len() && decl_at(src, kw, i) {
        lemma_decl_bounds(src, kw, i);
    }
}

/// All names declared in `src` by declarations introduced by `kw`,
/// in source order.
pub open spec fn declared_names(src: Seq<u8>, kw: Seq<u8>) -> Seq<Seq<u8>> {
    scan_from(src, kw, 0)
}

proof fn lemma_scan_from_sound(src: Seq<u8>, kw: Seq<u8>, i: int, m: int)
    requires
        0 <= i <= src.len(),
        0 <= m < scan_from(src, kw, i).len(),
    ensures
        exists|j: int|
            i <= j && decl_at(src, kw, j) && scan_from(src, kw, i)[m] == decl_name(src, kw, j),
    decreases src.len() - i,
{
    if i >= src.len() {
    } else if decl_at(src, kw, i) {
        lemma_decl_bounds(src, kw, i);
        if m == 0 {
            assert(i <= i && decl_at(src, kw, i) && scan_from(src, kw, i)[m] == decl_name(
                src,
                kw,
                i,
            ));
        } else {
            let resume = name_stop(src, kw, i) + 1;
            lemma_scan_from_sound(src, kw, resume, m - 1);
            let j = choose|j: int|
                resume <= j && decl_at(src, kw, j) && scan_from(src, kw, resume)[m - 1]
                    == decl_name(src, kw, j);
            assert(i <= j && decl_at(src, kw, j) && scan_from(src, kw, i)[m] == decl_name(
                src,
                kw,
                j,
            ));
        }
    } else {
        lemma_scan_from_sound(src, kw, i + 1, m);
        let j = choose|j: int|
            i + 1 <= j && decl_at(src, kw, j) && scan_from(src, kw, i + 1)[m] == decl_name(
                src,
                kw,
                j,
            );
        assert(i <= j && decl_at(src, kw, j) && scan_from(src, kw, i)[m] == decl_name(src, kw, j));
    }
}

/// `name` is the name of a declaration standing somewhere in the source.
pub open spec fn name_is_declared(src: Seq<u8>, kw: Seq<u8>, name: Seq<u8>) -> bool {
    exists|j: int| 0 <= j && decl_at(src, kw, j) && name == decl_name(src, kw, j)
}

/// The scan yields no name the source does not declare: every yielded name is
/// the name of a declaration standing somewhere in the source.
pub proof fn lemma_declared_names_sound(src: Seq<u8>, kw: Seq<u8>)
    ensures
        forall|m: int|
            0 <= m < declared_names(src, kw).len() ==> name_is_declared(
                src,
                kw,
                #[trigger] declared_names(src, kw)[m],
            ),
{
    assert forall|m: int| 0 <= m < declared_names(src, kw).len() implies name_is_declared(
        src,
        kw,
        #[trigger] declared_names(src, kw)[m],
    ) by {
        lemma_scan_from_sound(src, kw, 0, m);
        let j = choose|j: int|
            0 <= j && decl_at(src, kw, j) && scan_from(src, kw, 0)[m] == decl_name(src, kw, j);
        assert(0 <= j && decl_at(src, kw, j) && declared_names(src, kw)[m] == decl_name(
            src,
            kw,
            j,
        ));
    }
}

/// The bytes of the keyword `attribute`.
pub open spec fn attribute_kw() -> Seq<u8> {
    seq![97u8, 116u8, 116u8, 114u8, 105u8, 98u8, 117u8, 116u8, 101u8]
}

/// The bytes of the keyword `uniform`.
pub open spec fn uniform_kw() -> Seq<u8> {
    seq![117u8, 110u8, 105u8, 102u8, 111u8, 114u8, 109u8]
}

/// The keyword that introduces a vertex attribute declaration.
pub fn attribute_keyword() -> (kw: Vec<u8>)
    ensures
        kw@ == attribute_kw(),
{
    let mut kw: Vec<u8> = Vec::new();
    kw.push(97);
    kw.push(116);
    kw.push(116);
    kw.push(114);
    kw.push(105);
    kw.push(98);
    kw.push(117);
    kw.push(116);
    kw.push(101);
    proof {
        assert(kw@ =~= attribute_kw());
    }
    kw
}

/// The keyword that introduces a uniform declaration.
pub fn uniform_keyword() -> (kw: Vec<u8>)
    ensures
        kw@ == uniform_kw(),
{
    let mut kw: Vec<u8> = Vec::new();
    kw.push(117);
    kw.push(110);
    kw.push(105);
    kw.push(102);
    kw.push(111);
    kw.push(114);
    kw.push(109);
    proof {
        assert(kw@ =~= uniform_kw());
    }
    kw
}

fn space_byte(b: u8) -> (r: bool)
    ensures
        r == is_space(b),
{
    b == 32 || b == 9 || b == 10 || b == 13 || b == 11 || b == 12
}

fn scan_ws(src: &Vec<u8>, from: usize) -> (r: usize)
    requires
        from <= src@.len(),
    ensures
        r == ws_end(src@, from as int),
        from <= r <= src@.len(),
{
    let mut j = from;
    while j < src.len() && space_byte(src[j])
        invariant
            from <= j <= src@.len(),
            ws_end(src@, from as int) == ws_end(src@, j as int),
        decreases src@.len() - j,
    {
        j += 1;
    }
    proof {
        lemma_ws_end(src@, from as int);
    }
    j
}

fn scan_tok(src: &Vec<u8>, from: usize) -> (r: usize)
    requires
        from <= src@.len(),
    ensures
        r == tok_end(src@, from as int),
        from <= r <= src@.len(),
{
    let mut j = from;
    while j < src.len() && !space_byte(src[j])
        invariant
            from <= j <= src@.len(),
            tok_end(src@, from as int) == tok_end(src@, j as int),
        decreases src@.len() - j,
    {
        j += 1;
    }
    proof {
        lemma_tok_end(src@, from as int);
    }
    j
}

fn scan_name(src: &Vec<u8>, from: usize) -> (r: usize)
    requires
        from <= src@.len(),
    ensures
        r == name_end(src@, from as int),
        from <= r <= src@.len(),
{
    let mut j = from;
    while j < src.len() && src[j] != 59
        invariant
            from <= j <= src@.len(),
            name_end(src@, from as int) == name_end(src@, j as int),
        decreases src@.len() - j,
    {
        j += 1;
    }
    proof {
        lemma_name_end(src@, from as int);
    }
    j
}

fn kw_at(src: &Vec<u8>, kw: &Vec<u8>, i: usize) -> (r: bool)
    requires
        i <= src@.len(),
    ensures
        r == matches_kw(src@, kw@, i as int),
{
    if src.len() - i < kw.len() {
        return false;
    }
    let n = src.len();
    let mut j: usize = 0;
    while j < kw.len()
        invariant
            0 <= j <= kw@.len(),
            i + kw@.len() <= src@.len(),
            src@.len() == n,
            forall|k: int| 0 <= k < j ==> src@[i + k] == kw@[k],
        decreases kw@.len() - j,
    {
        if src[i + j] != kw[j] {
            proof {
                assert(src@.subrange(i as int, i + kw@.len())[j as int] == src@[i + j]);
            }
            return false;
        }
        j += 1;
    }
    proof {
        assert(src@.subrange(i as int, i + kw@.len()) =~= kw@);
    }
    true
}

fn copy_range(src: &Vec<u8>, from: usize, to: usize) -> (r: Vec<u8>)
    requires
        from <= to <= src@.len(),
    ensures
        r@ == src@.subrange(from as int, to as int),
{
    let mut r: Vec<u8> = Vec::new();
    let mut j = from;
    proof {
        assert(r@ =~= src@.subrange(from as int, from as int));
    }
    while j < to
        invariant
            from <= j <= to <= src@.len(),
            r@ == src@.subrange(from as int, j as int),
        decreases to - j,
    {
        r.push(src[j]);
        proof {
            assert(r@ =~= src@.subrange(from as int, j + 1));
        }
        j += 1;
    }
    r
}

fn try_decl_at(src: &Vec<u8>, kw: &Vec<u8>, i: usize) -> (r: Option<(usize, usize)>)
    requires
        i < src@.len(),
    ensures
        match r {
            Some(span) => {
                &&& decl_at(src@, kw@, i as int)
                &&& span.0 == name_start(src@, kw@, i as int)
                &&& span.1 == name_stop(src@, kw@, i as int)
                &&& i <= span.0 < span.1 < src@.len()
            },
            None => !decl_at(src@, kw@, i as int),
        },
{
    if !kw_at(src, kw, i) {
        return None;
    }
    let n = src.len();
    let t0 = i + kw.len();
    let t1 = scan_ws(src, t0);
    if t1 == t0 {
        return None;
    }
    let t2 = scan_tok(src, t1);
    if t2 == t1 {
        return None;
    }
    let t3 = scan_ws(src, t2);
    if t3 == t2 {
        return None;
    }
    let t4 = scan_name(src, t3);
    if t4 == t3 {
        return None;
    }
    if t4 == src.len() {
        return None;
    }
    Some((t3, t4))
}

/// Scan `src` for declarations introduced by `kw` and hand back the declared
/// names, in source order.
pub fn scan_declarations(src: &Vec<u8>, kw: &Vec<u8>) -> (names: Vec<Vec<u8>>)
    ensures
        names@.map_values(|n: Vec<u8>| n@) == declared_names(src@, kw@),
{
    let mut names: Vec<Vec<u8>> = Vec::new();
    let mut i: usize = 0;
    while i < src.len()
        invariant
            0 <= i <= src@.len(),
            names@.map_values(|n: Vec<u8>| n@) + scan_from(src@, kw@, i as int)
                == scan_from(src@, kw@, 0),
        decreases src@.len() - i,
    {
        let ghost prev = names@.map_values(|n: Vec<u8>| n@);
        let ghost i0 = i as int;
        match try_decl_at(src, kw, i) {
            Some(span) => {
                let name = copy_range(src, span.0, span.1);
                proof {
                    assert(name@ == decl_name(src@, kw@, i0));
                }
                names.push(name);
                proof {
                    assert(names@.map_values(|n: Vec<u8>| n@) =~= prev.push(name@));
                    assert(prev.push(name@) + scan_from(src@, kw@, name_stop(src@, kw@, i0) + 1)
                        =~= prev + scan_from(src@, kw@, i0));
                }
                i = span.1 + 1;
            },
            None => {
                i = i + 1;
            },
        }
    }
    proof {
        assert(names@.map_values(|n: Vec<u8>| n@) + scan_from(src@, kw@, i as int)
            =~= names@.map_values(|n: Vec<u8>| n@));
    }
    names
}

} // verus!
