//! A typestate builder for the game-database query language: a query is
//! assembled clause by clause, the type parameters of [`QueryBuilder`]
//! recording which clauses are already present, and [`QueryBuilder::build`]
//! renders the clauses in a fixed order, separated by single spaces.

use vstd::prelude::*;

use crate::decimal::spec_decimal;
use crate::decimal::u32_to_decimal;

verus! {

/// One clause of a query, together with its exact textual rendering.
pub trait QueryPart {
    /// The text this clause contributes to the built query; empty for an
    /// absent clause.
    spec fn part_view(&self) -> Seq<char>;

    /// Renders the clause.
    fn render(&self) -> (r: String)
        ensures
            r@ == self.part_view(),
    ;
}

/// A clause that has not been given; it renders as nothing.
pub struct UnspecifiedOption;

impl QueryPart for UnspecifiedOption {
    open spec fn part_view(&self) -> Seq<char> {
        Seq::empty()
    }

    fn render(&self) -> (r: String) {
        String::new()
    }
}

/// The field selection that asks for every field.
pub struct AllFields;

impl QueryPart for AllFields {
    open spec fn part_view(&self) -> Seq<char> {
        "fields *;"@
    }

    fn render(&self) -> (r: String) {
        "fields *;".to_owned()
    }
}

/// The named fields of the query, joined with `", "` when rendered.
pub open spec fn spec_join_comma(parts: Seq<Seq<char>>) -> Seq<char>
    decreases parts.len(),
{
    if parts.len() == 0 {
        Seq::empty()
    } else {
        spec_join_comma(parts.drop_last()) + (if parts.len() == 1 {
            Seq::<char>::empty()
        } else {
            ", "@
        }) + parts.last()
    }
}

proof fn lemma_join_comma_take_step(parts: Seq<Seq<char>>, i: int)
    requires
        0 <= i < parts.len(),
    ensures
        spec_join_comma(parts.take(i + 1)) == if i == 0 {
            parts[0]
        } else {
            spec_join_comma(parts.take(i)) + ", "@ + parts[i]
        },
{
    let p = parts.take(i + 1);
    assert(p.drop_last() =~= parts.take(i));
    assert(p.last() == parts[i]);
    if i == 0 {
        assert(p.drop_last().len() == 0);
        assert(spec_join_comma(p.drop_last()) == Seq::<char>::empty());
        assert(spec_join_comma(p) =~= parts[0]);
    }
}

/// An explicit list of selected fields.
pub struct Fields(pub Vec<String>);

impl QueryPart for Fields {
    open spec fn part_view(&self) -> Seq<char> {
        "fields "@ + spec_join_comma(self.0.deep_view()) + ";"@
    }

    fn render(&self) -> (r: String) {
        let n = self.0.len();
        let mut joined = String::new();
        let mut i: usize = 0;
        while i < n
            invariant
                n == self.0.len(),
                i <= n,
                joined@ == spec_join_comma(self.0.deep_view().take(i as int)),
            decreases n - i,
        {
            if i > 0 {
                joined.append(", ");
            }
            joined.append(self.0[i].as_str());
            proof {
                lemma_join_comma_take_step(self.0.deep_view(), i as int);
                assert(joined@ =~= spec_join_comma(self.0.deep_view().take(i as int + 1)));
            }
            i += 1;
        }
        proof {
            assert(self.0.deep_view().take(n as int) =~= self.0.deep_view());
        }
        let mut r = "fields ".to_owned();
        r.append(joined.as_str());
        r.append(";");
        r
    }
}

/// A `where` clause; the wrapped string holds the clause text including the
/// `"where "` keyword but not the closing `";"`.
pub struct WhereClause(pub String);

impl WhereClause {
    pub fn new(clause: &str) -> (r: Self)
        ensures
            r.0@ == "where "@ + clause@,
    {
        let mut s = "where ".to_owned();
        s.append(clause);
        WhereClause(s)
    }
}

impl QueryPart for WhereClause {
    open spec fn part_view(&self) -> Seq<char> {
        self.0@ + ";"@
    }

    fn render(&self) -> (r: String) {
        let mut r = self.0.clone();
        r.append(";");
        r
    }
}

/// A `limit` clause, stored fully rendered.
pub struct Limit(pub String);

impl Limit {
    pub fn new(limit: u32) -> (r: Self)
        ensures
            r.0@ == "limit "@ + spec_decimal(limit as nat) + ";"@,
    {
        let mut s = "limit ".to_owned();
        s.append(u32_to_decimal(limit).as_str());
        s.append(";");
        Limit(s)
    }
}

impl QueryPart for Limit {
    open spec fn part_view(&self) -> Seq<char> {
        self.0@
    }

    fn render(&self) -> (r: String) {
        self.0.clone()
    }
}

/// An `offset` clause, stored fully rendered.
pub struct Offset(pub String);

impl Offset {
    pub fn new(offset: u32) -> (r: Self)
        ensures
            r.0@ == "offset "@ + spec_decimal(offset as nat) + ";"@,
    {
        let mut s = "offset ".to_owned();
        s.append(u32_to_decimal(offset).as_str());
        s.append(";");
        Offset(s)
    }
}

impl QueryPart for Offset {
    open spec fn part_view(&self) -> Seq<char> {
        self.0@
    }

    fn render(&self) -> (r: String) {
        self.0.clone()
    }
}

/// A `search` clause, stored fully rendered; the query text stands in double
/// quotes.
pub struct Search(pub String);

impl Search {
    pub fn new(query: &str) -> (r: Self)
        ensures
            r.0@ == "search \""@ + query@ + "\";"@,
    {
        let mut s = "search \"".to_owned();
        s.append(query);
        s.append("\";");
        Search(s)
    }
}

impl QueryPart for Search {
    open spec fn part_view(&self) -> Seq<char> {
        self.0@
    }

    fn render(&self) -> (r: String) {
        self.0.clone()
    }
}

/// The direction of a `sort` clause.
pub enum SortDirection {
    Ascending,
    Descending,
}

/// The keyword a sort direction renders as.
pub open spec fn spec_direction(d: SortDirection) -> Seq<char> {
    match d {
        SortDirection::Ascending => "asc"@,
        SortDirection::Descending => "desc"@,
    }
}

/// A `sort` clause: the field to sort by and the direction.
pub struct Sort(pub String, pub SortDirection);

impl QueryPart for Sort {
    open spec fn part_view(&self) -> Seq<char> {
        "sort "@ + self.0@ + " "@ + spec_direction(self.1) + ";"@
    }

    fn render(&self) -> (r: String) {
        let mut r = "sort ".to_owned();
        r.append(self.0.as_str());
        r.append(" ");
        match &self.1 {
            SortDirection::Ascending => r.append("asc"),
            SortDirection::Descending => r.append("desc"),
        }
        r.append(";");
        r
    }
}

/// Entry points for starting a query.
pub struct Query(pub String);

/// Clones the given field names into a fresh vector.
fn clone_fields(fields: &[String]) -> (v: Vec<String>)
    ensures
        v.deep_view() == fields.deep_view(),
{
    let mut v: Vec<String> = Vec::new();
    let mut i: usize = 0;
    while i < fields.len()
        invariant
            i <= fields@.len(),
            v@.len() == i,
            forall|k: int| 0 <= k < i ==> #[trigger] v@[k]@ == fields@[k]@,
        decreases fields@.len() - i,
    {
        let elem: &String = &fields[i];
        let c = elem.clone();
        let ghost vpre = v@;
        v.push(c);
        proof {
            assert(forall|k: int| 0 <= k < i ==> #[trigger] v@[k]@ == vpre[k]@);
        }
        i += 1;
    }
    proof {
        assert forall|k: int| 0 <= k < v@.len() implies v.deep_view()[k]
            == fields.deep_view()[k] by {
            assert(v.deep_view()[k] == v@[k]@);
            assert(fields.deep_view()[k] == fields@[k]@);
        }
        assert(v.deep_view() =~= fields.deep_view());
    }
    v
}

impl Query {
    pub fn select(field: &str) -> (r: QueryBuilder<
        Fields,
        UnspecifiedOption,
        UnspecifiedOption,
        UnspecifiedOption,
        UnspecifiedOption,
        UnspecifiedOption,
    >)
        ensures
            r.fields.0.deep_view() == seq![field@],
    {
        let mut v: Vec<String> = Vec::new();
        v.push(field.to_owned());
        proof {
            assert(v.deep_view() =~= seq![field@]);
        }
        QueryBuilder {
            fields: Fields(v),
            where_clause: UnspecifiedOption,
            limit: UnspecifiedOption,
            offset: UnspecifiedOption,
            search: UnspecifiedOption,
            sort: UnspecifiedOption,
        }
    }

    pub fn select_multiple(fields: &[String]) -> (r: QueryBuilder<
        Fields,
        UnspecifiedOption,
        UnspecifiedOption,
        UnspecifiedOption,
        UnspecifiedOption,
        UnspecifiedOption,
    >)
        ensures
            r.fields.0.deep_view() == fields.deep_view(),
    {
        QueryBuilder {
            fields: Fields(clone_fields(fields)),
            where_clause: UnspecifiedOption,
            limit: UnspecifiedOption,
            offset: UnspecifiedOption,
            search: UnspecifiedOption,
            sort: UnspecifiedOption,
        }
    }

    pub fn where_(clause: &str) -> (r: QueryBuilder<
        AllFields,
        WhereClause,
        UnspecifiedOption,
        UnspecifiedOption,
        UnspecifiedOption,
        UnspecifiedOption,
    >)
        ensures
            r.where_clause.0@ == "where "@ + clause@,
    {
        QueryBuilder {
            fields: AllFields,
            where_clause: WhereClause::new(clause),
            limit: UnspecifiedOption,
            offset: UnspecifiedOption,
            search: UnspecifiedOption,
            sort: UnspecifiedOption,
        }
    }

    pub fn search(query: &str) -> (r: QueryBuilder<
        AllFields,
        UnspecifiedOption,
        UnspecifiedOption,
        UnspecifiedOption,
        Search,
        UnspecifiedOption,
    >)
        ensures
            r.search.0@ == "search \""@ + query@ + "\";"@,
    {
        QueryBuilder {
            fields: AllFields,
            where_clause: UnspecifiedOption,
            limit: UnspecifiedOption,
            offset: UnspecifiedOption,
            search: Search::new(query),
            sort: UnspecifiedOption,
        }
    }

    pub fn limit(limit: u32) -> (r: QueryBuilder<
        AllFields,
        UnspecifiedOption,
        Limit,
        UnspecifiedOption,
        UnspecifiedOption,
        UnspecifiedOption,
    >)
        ensures
            r.limit.0@ == "limit "@ + spec_decimal(limit as nat) + ";"@,
    {
        QueryBuilder {
            fields: AllFields,
            where_clause: UnspecifiedOption,
            limit: Limit::new(limit),
            offset: UnspecifiedOption,
            search: UnspecifiedOption,
            sort: UnspecifiedOption,
        }
    }

    pub fn offset(offset: u32) -> (r: QueryBuilder<
        AllFields,
        UnspecifiedOption,
        UnspecifiedOption,
        Offset,
        UnspecifiedOption,
        UnspecifiedOption,
    >)
        ensures
            r.offset.0@ == "offset "@ + spec_decimal(offset as nat) + ";"@,
    {
        QueryBuilder {
            fields: AllFields,
            where_clause: UnspecifiedOption,
            limit: UnspecifiedOption,
            offset: Offset::new(offset),
            search: UnspecifiedOption,
            sort: UnspecifiedOption,
        }
    }

    pub fn sort(field: &str, direction: SortDirection) -> (r: QueryBuilder<
        AllFields,
        UnspecifiedOption,
        UnspecifiedOption,
        UnspecifiedOption,
        UnspecifiedOption,
        Sort,
    >)
        ensures
            r.sort.0@ == field@,
            r.sort.1 == direction,
    {
        QueryBuilder {
            fields: AllFields,
            where_clause: UnspecifiedOption,
            limit: UnspecifiedOption,
            offset: UnspecifiedOption,
            search: UnspecifiedOption,
            sort: Sort(field.to_owned(), direction),
        }
    }
}

/// A query under construction; each type parameter is either the clause's
/// type or [`UnspecifiedOption`].
pub struct QueryBuilder<F, WC, L, O, Se, So> {
    pub fields: F,
    pub where_clause: WC,
    pub limit: L,
    pub offset: O,
    pub search: Se,
    pub sort: So,
}

impl<WC, L, O, Se, So> QueryBuilder<AllFields, WC, L, O, Se, So> {
    pub fn select(self, field: &str) -> (r: QueryBuilder<Fields, WC, L, O, Se, So>)
        ensures
            r.fields.0.deep_view() == seq![field@],
            r.where_clause == self.where_clause,
            r.limit == self.limit,
            r.offset == self.offset,
            r.search == self.search,
            r.sort == self.sort,
    {
        let QueryBuilder { fields: _, where_clause, limit, offset, search, sort } = self;
        let mut v: Vec<String> = Vec::new();
        v.push(field.to_owned());
        proof {
            assert(v.deep_view() =~= seq![field@]);
        }
        QueryBuilder { fields: Fields(v), where_clause, limit, offset, search, sort }
    }

    pub fn select_multiple(self, fields: &[String]) -> (r: QueryBuilder<Fields, WC, L, O, Se, So>)
        ensures
            r.fields.0.deep_view() == fields.deep_view(),
            r.where_clause == self.where_clause,
            r.limit == self.limit,
            r.offset == self.offset,
            r.search == self.search,
            r.sort == self.sort,
    {
        let QueryBuilder { fields: _, where_clause, limit, offset, search, sort } = self;
        QueryBuilder { fields: Fields(clone_fields(fields)), where_clause, limit, offset, search, sort }
    }
}

impl<WC, L, O, Se, So> QueryBuilder<Fields, WC, L, O, Se, So> {
    pub fn select(self, field: &str) -> (r: QueryBuilder<Fields, WC, L, O, Se, So>)
        ensures
            r.fields.0.deep_view() == self.fields.0.deep_view().push(field@),
            r.where_clause == self.where_clause,
            r.limit == self.limit,
            r.offset == self.offset,
            r.search == self.search,
            r.sort == self.sort,
    {
        let QueryBuilder { fields, where_clause, limit, offset, search, sort } = self;
        let Fields(mut v) = fields;
        v.push(field.to_owned());
        proof {
            assert(v.deep_view() =~= self.fields.0.deep_view().push(field@));
        }
        QueryBuilder { fields: Fields(v), where_clause, limit, offset, search, sort }
    }

    pub fn select_multiple(self, fields: &[String]) -> (r: QueryBuilder<Fields, WC, L, O, Se, So>)
        ensures
            r.fields.0.deep_view() == self.fields.0.deep_view() + fields.deep_view(),
            r.where_clause == self.where_clause,
            r.limit == self.limit,
            r.offset == self.offset,
            r.search == self.search,
            r.sort == self.sort,
    {
        let QueryBuilder { fields: own_fields, where_clause, limit, offset, search, sort } = self;
        let Fields(mut v) = own_fields;
        let mut extra = clone_fields(fields);
        v.append(&mut extra);
        proof {
            assert(v.deep_view() =~= self.fields.0.deep_view() + fields.deep_view());
        }
        QueryBuilder { fields: Fields(v), where_clause, limit, offset, search, sort }
    }
}

impl<F, L, O, Se, So> QueryBuilder<F, UnspecifiedOption, L, O, Se, So> {
    pub fn where_(self, clause: &str) -> (r: QueryBuilder<F, WhereClause, L, O, Se, So>)
        ensures
            r.where_clause.0@ == "where "@ + clause@,
            r.fields == self.fields,
            r.limit == self.limit,
            r.offset == self.offset,
            r.search == self.search,
            r.sort == self.sort,
    {
        let QueryBuilder { fields, where_clause: _, limit, offset, search, sort } = self;
        QueryBuilder { fields, where_clause: WhereClause::new(clause), limit, offset, search, sort }
    }
}

impl<F, L, O, Se, So> QueryBuilder<F, WhereClause, L, O, Se, So> {
    pub fn and(self, clause: &str) -> (r: Self)
        ensures
            r.where_clause.0@ == self.where_clause.0@ + " & "@ + clause@,
            r.fields == self.fields,
            r.limit == self.limit,
            r.offset == self.offset,
            r.search == self.search,
            r.sort == self.sort,
    {
        let QueryBuilder { fields, where_clause, limit, offset, search, sort } = self;
        let WhereClause(mut w) = where_clause;
        w.append(" & ");
        w.append(clause);
        QueryBuilder { fields, where_clause: WhereClause(w), limit, offset, search, sort }
    }

    pub fn or(self, clause: &str) -> (r: Self)
        ensures
            r.where_clause.0@ == self.where_clause.0@ + " | "@ + clause@,
            r.fields == self.fields,
            r.limit == self.limit,
            r.offset == self.offset,
            r.search == self.search,
            r.sort == self.sort,
    {
        let QueryBuilder { fields, where_clause, limit, offset, search, sort } = self;
        let WhereClause(mut w) = where_clause;
        w.append(" | ");
        w.append(clause);
        QueryBuilder { fields, where_clause: WhereClause(w), limit, offset, search, sort }
    }

    pub fn where_(self, clause: &str) -> (r: Self)
        ensures
            r.where_clause.0@ == self.where_clause.0@ + " & "@ + clause@,
            r.fields == self.fields,
            r.limit == self.limit,
            r.offset == self.offset,
            r.search == self.search,
            r.sort == self.sort,
    {
        self.and(clause)
    }
}

impl<F, WC, O, Se, So> QueryBuilder<F, WC, UnspecifiedOption, O, Se, So> {
    pub fn limit(self, limit: u32) -> (r: QueryBuilder<F, WC, Limit, O, Se, So>)
        ensures
            r.limit.0@ == "limit "@ + spec_decimal(limit as nat) + ";"@,
            r.fields == self.fields,
            r.where_clause == self.where_clause,
            r.offset == self.offset,
            r.search == self.search,
            r.sort == self.sort,
    {
        let QueryBuilder { fields, where_clause, limit: _, offset, search, sort } = self;
        QueryBuilder { fields, where_clause, limit: Limit::new(limit), offset, search, sort }
    }
}

impl<F, WC, L, Se, So> QueryBuilder<F, WC, L, UnspecifiedOption, Se, So> {
    pub fn offset(self, offset: u32) -> (r: QueryBuilder<F, WC, L, Offset, Se, So>)
        ensures
            r.offset.0@ == "offset "@ + spec_decimal(offset as nat) + ";"@,
            r.fields == self.fields,
            r.where_clause == self.where_clause,
            r.limit == self.limit,
            r.search == self.search,
            r.sort == self.sort,
    {
        let QueryBuilder { fields, where_clause, limit, offset: _, search, sort } = self;
        QueryBuilder { fields, where_clause, limit, offset: Offset::new(offset), search, sort }
    }
}

impl<F, WC, L, O, So> QueryBuilder<F, WC, L, O, UnspecifiedOption, So> {
    pub fn search(self, query: &str) -> (r: QueryBuilder<F, WC, L, O, Search, So>)
        ensures
            r.search.0@ == "search \""@ + query@ + "\";"@,
            r.fields == self.fields,
            r.where_clause == self.where_clause,
            r.limit == self.limit,
            r.offset == self.offset,
            r.sort == self.sort,
    {
        let QueryBuilder { fields, where_clause, limit, offset, search: _, sort } = self;
        QueryBuilder { fields, where_clause, limit, offset, search: Search::new(query), sort }
    }
}

impl<F, WC, L, O, Se> QueryBuilder<F, WC, L, O, Se, UnspecifiedOption> {
    pub fn sort(self, field: &str, direction: SortDirection) -> (r: QueryBuilder<F, WC, L, O, Se, Sort>)
        ensures
            r.sort.0@ == field@,
            r.sort.1 == direction,
            r.fields == self.fields,
            r.where_clause == self.where_clause,
            r.limit == self.limit,
            r.offset == self.offset,
            r.search == self.search,
    {
        let QueryBuilder { fields, where_clause, limit, offset, search, sort: _ } = self;
        QueryBuilder { fields, where_clause, limit, offset, search, sort: Sort(field.to_owned(), direction) }
    }
}

/// Joins a rendered clause onto the query text built so far: nothing is added
/// for an empty clause, and a single space separates adjacent clauses.
pub open spec fn spec_append_clause(acc: Seq<char>, part: Seq<char>) -> Seq<char> {
    if part.len() == 0 {
        acc
    } else if acc.len() == 0 {
        part
    } else {
        acc + " "@ + part
    }
}

/// The full query text: the clauses in rendering order (fields, where,
/// search, offset, limit, sort), the empty ones skipped, the rest separated
/// by single spaces.
pub open spec fn spec_query_view(
    f: Seq<char>,
    wc: Seq<char>,
    se: Seq<char>,
    o: Seq<char>,
    l: Seq<char>,
    so: Seq<char>,
) -> Seq<char> {
    spec_append_clause(
        spec_append_clause(
            spec_append_clause(spec_append_clause(spec_append_clause(f, wc), se), o),
            l,
        ),
        so,
    )
}

fn append_clause(acc: &mut String, part: &str)
    ensures
        final(acc)@ == spec_append_clause(old(acc)@, part@),
{
    if !part.is_empty() {
        let acc_empty = acc.as_str().is_empty();
        if !acc_empty {
            acc.append(" ");
        }
        acc.append(part);
        proof {
            assert(acc@ =~= spec_append_clause(old(acc)@, part@));
        }
    }
}

impl<
    F: QueryPart,
    WC: QueryPart,
    L: QueryPart,
    O: QueryPart,
    Se: QueryPart,
    So: QueryPart,
> QueryBuilder<F, WC, L, O, Se, So> {
    /// The text this builder's `build` returns.
    pub open spec fn spec_built(self) -> Seq<char> {
        spec_query_view(
            self.fields.part_view(),
            self.where_clause.part_view(),
            self.search.part_view(),
            self.offset.part_view(),
            self.limit.part_view(),
            self.sort.part_view(),
        )
    }

    pub fn build(self) -> (r: String)
        ensures
            r@ == self.spec_built(),
    {
        let mut acc = String::new();
        append_clause(&mut acc, self.fields.render().as_str());
        append_clause(&mut acc, self.where_clause.render().as_str());
        append_clause(&mut acc, self.search.render().as_str());
        append_clause(&mut acc, self.offset.render().as_str());
        append_clause(&mut acc, self.limit.render().as_str());
        append_clause(&mut acc, self.sort.render().as_str());
        acc
    }
}

} // verus!
