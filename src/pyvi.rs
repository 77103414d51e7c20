use vstd::prelude::*;
use vstd::string::StringExecFns;

verus! {

/// A named vector of already formatted numbers.
pub struct Parameter {
    name: String,
    value: Vec<String>,
}

/// A named list of vectors, plotted against the parameter it names.
pub struct Section {
    name: String,
    parameter_name: String,
    value: Vec<Vec<String>>,
}

/// A plotting file: named parameters and named sections, each kept in the
/// order in which its name first appeared. Numbers are held as the text that
/// the file shows for them.
pub struct PyVi {
    filename: String,
    parameters: Vec<Parameter>,
    sections: Vec<Section>,
}

/// The contents of a `PyVi`: each parameter as (name, cells) and each section
/// as (name, (parameter name, rows of cells)).
pub struct PyViView {
    pub filename: Seq<char>,
    pub parameters: Seq<(Seq<char>, Seq<Seq<char>>)>,
    pub sections: Seq<(Seq<char>, (Seq<char>, Seq<Seq<Seq<char>>>))>,
}

impl View for PyVi {
    type V = PyViView;

    closed spec fn view(&self) -> PyViView {
        PyViView {
            filename: self.filename@,
            parameters: self.parameters@.map_values(|p: Parameter| (p.name@, p.value.deep_view())),
            sections: self.sections@.map_values(
                |s: Section| (s.name@, (s.parameter_name@, s.value.deep_view())),
            ),
        }
    }
}

/// No two entries share a name.
pub open spec fn names_unique<V>(s: Seq<(Seq<char>, V)>) -> bool {
    forall|i: int, j: int|
        0 <= i < s.len() && 0 <= j < s.len() && i != j ==> #[trigger] s[i].0 != #[trigger] s[j].0
}

/// Some entry is named `k`.
pub open spec fn has_name<V>(s: Seq<(Seq<char>, V)>, k: Seq<char>) -> bool {
    exists|i: int| 0 <= i < s.len() && #[trigger] s[i].0 == k
}

/// The position of the entry named `k` (the only one, in a sequence whose
/// names are unique).
pub open spec fn index_of<V>(s: Seq<(Seq<char>, V)>, k: Seq<char>) -> int {
    choose|i: int| 0 <= i < s.len() && #[trigger] s[i].0 == k
}

/// The entry named `k` set to `v`: in its place if `k` is present, else at
/// the end.
pub open spec fn upsert<V>(s: Seq<(Seq<char>, V)>, k: Seq<char>, v: V) -> Seq<(Seq<char>, V)> {
    if has_name(s, k) {
        s.update(index_of(s, k), (k, v))
    } else {
        s.push((k, v))
    }
}

/// Cells separated by commas.
pub open spec fn join(cells: Seq<Seq<char>>) -> Seq<char>
    decreases cells.len(),
{
    if cells.len() == 0 {
        Seq::empty()
    } else if cells.len() == 1 {
        cells[0]
    } else {
        join(cells.drop_last()) + seq![','] + cells.last()
    }
}

/// The decimal digit of `d < 10`.
pub open spec fn digit(d: nat) -> char {
    if d == 0 {
        '0'
    } else if d == 1 {
        '1'
    } else if d == 2 {
        '2'
    } else if d == 3 {
        '3'
    } else if d == 4 {
        '4'
    } else if d == 5 {
        '5'
    } else if d == 6 {
        '6'
    } else if d == 7 {
        '7'
    } else if d == 8 {
        '8'
    } else {
        '9'
    }
}

/// `n` in decimal, without leading zeros.
pub open spec fn decimal(n: nat) -> Seq<char>
    decreases n,
{
    if n < 10 {
        seq![digit(n)]
    } else {
        decimal(n / 10) + seq![digit(n % 10)]
    }
}

/// The line of one parameter: `name:c0,c1,...` and a newline.
pub open spec fn parameter_line(p: (Seq<char>, Seq<Seq<char>>)) -> Seq<char> {
    p.0 + seq![':'] + join(p.1) + seq!['\n']
}

/// The lines of the first `n` parameters.
pub open spec fn parameter_lines(ps: Seq<(Seq<char>, Seq<Seq<char>>)>, n: nat) -> Seq<char>
    decreases n,
{
    if n == 0 || n > ps.len() {
        Seq::empty()
    } else {
        parameter_lines(ps, (n - 1) as nat) + parameter_line(ps[n - 1])
    }
}

/// Row `k` of a section: `I[k]=c0,c1,...` and a newline.
pub open spec fn row_line(k: nat, row: Seq<Seq<char>>) -> Seq<char> {
    seq!['I', '['] + decimal(k) + seq![']', '='] + join(row) + seq!['\n']
}

/// The first `n` rows of a section.
pub open spec fn row_lines(rows: Seq<Seq<Seq<char>>>, n: nat) -> Seq<char>
    decreases n,
{
    if n == 0 || n > rows.len() {
        Seq::empty()
    } else {
        row_lines(rows, (n - 1) as nat) + row_line((n - 1) as nat, rows[n - 1])
    }
}

/// One section: `(name)->[parameter]`, its rows, and a blank line.
pub open spec fn section_text(s: (Seq<char>, (Seq<char>, Seq<Seq<Seq<char>>>))) -> Seq<char> {
    seq!['('] + s.0 + seq![')', '-', '>', '['] + s.1.0 + seq![']', '\n'] + row_lines(
        s.1.1,
        s.1.1.len(),
    ) + seq!['\n']
}

/// The first `n` sections.
pub open spec fn section_texts(
    ss: Seq<(Seq<char>, (Seq<char>, Seq<Seq<Seq<char>>>))>,
    n: nat,
) -> Seq<char>
    decreases n,
{
    if n == 0 || n > ss.len() {
        Seq::empty()
    } else {
        section_texts(ss, (n - 1) as nat) + section_text(ss[n - 1])
    }
}

/// The text of the whole file.
pub open spec fn render_spec(v: PyViView) -> Seq<char> {
    seq!['[', 'P', 'a', 'r', 'a', 'm', 'e', 't', 'e', 'r', ']', '\n'] + parameter_lines(
        v.parameters,
        v.parameters.len(),
    ) + seq!['[', 'S', 'e', 'c', 't', 'i', 'o', 'n', ']', '\n'] + section_texts(
        v.sections,
        v.sections.len(),
    )
}

/// Appends the decimal digit of `d`.
fn push_digit(out: &mut String, d: usize)
    requires
        d < 10,
    ensures
        final(out)@ == old(out)@ + seq![digit(d as nat)],
{
    let t = if d == 0 {
        "0"
    } else if d == 1 {
        "1"
    } else if d == 2 {
        "2"
    } else if d == 3 {
        "3"
    } else if d == 4 {
        "4"
    } else if d == 5 {
        "5"
    } else if d == 6 {
        "6"
    } else if d == 7 {
        "7"
    } else if d == 8 {
        "8"
    } else {
        "9"
    };
    proof {
        reveal_strlit("0");
        reveal_strlit("1");
        reveal_strlit("2");
        reveal_strlit("3");
        reveal_strlit("4");
        reveal_strlit("5");
        reveal_strlit("6");
        reveal_strlit("7");
        reveal_strlit("8");
        reveal_strlit("9");
    }
    assert(t@ =~= seq![digit(d as nat)]);
    out.append(t);
}

/// Appends `n` in decimal.
fn push_decimal(out: &mut String, n: usize)
    ensures
        final(out)@ == old(out)@ + decimal(n as nat),
    decreases n,
{
    if n >= 10 {
        push_decimal(out, n / 10);
        push_digit(out, n % 10);
        assert(final(out)@ =~= old(out)@ + decimal(n as nat));
    } else {
        push_digit(out, n);
    }
}

/// Appends the cells separated by commas.
fn push_joined(out: &mut String, cells: &Vec<String>)
    ensures
        final(out)@ == old(out)@ + join(cells.deep_view()),
{
    let ghost start = out@;
    let ghost cv = cells.deep_view();
    let mut i: usize = 0;
    while i < cells.len()
        invariant
            i <= cells@.len(),
            cv == cells.deep_view(),
            out@ == start + join(cv.take(i as int)),
        decreases cells@.len() - i,
    {
        let ghost before = out@;
        if i > 0 {
            out.append(",");
        }
        out.append(cells[i].as_str());
        proof {
            let t = cv.take(i as int + 1);
            assert(t.drop_last() =~= cv.take(i as int));
            assert(t.last() == cells@[i as int]@);
            if i == 0 {
                assert(join(cv.take(0)) =~= Seq::<char>::empty());
                assert(join(t) == t[0]);
                assert(out@ =~= start + join(t));
            } else {
                reveal_strlit(",");
                assert(","@ =~= seq![',']);
                assert(join(t) == join(t.drop_last()) + seq![','] + t.last());
                assert(out@ =~= before + seq![','] + t.last());
                assert(out@ =~= start + join(t));
            }
        }
        i = i + 1;
    }
    assert(cv.take(i as int) =~= cv);
}

/// Appends the line of one parameter.
fn push_parameter_line(out: &mut String, p: &Parameter)
    ensures
        final(out)@ == old(out)@ + parameter_line((p.name@, p.value.deep_view())),
{
    let ghost start = out@;
    out.append(p.name.as_str());
    out.append(":");
    push_joined(out, &p.value);
    out.append("\n");
    proof {
        reveal_strlit(":");
        reveal_strlit("\n");
    }
    assert(out@ =~= start + parameter_line((p.name@, p.value.deep_view())));
}

/// Appends the rows of a section, each tagged with its index.
fn push_rows(out: &mut String, rows: &Vec<Vec<String>>)
    ensures
        final(out)@ == old(out)@ + row_lines(rows.deep_view(), rows@.len()),
{
    let ghost start = out@;
    let ghost rv = rows.deep_view();
    let mut k: usize = 0;
    while k < rows.len()
        invariant
            k <= rows@.len(),
            rv == rows.deep_view(),
            out@ == start + row_lines(rv, k as nat),
        decreases rows@.len() - k,
    {
        let ghost before = out@;
        out.append("I[");
        push_decimal(out, k);
        out.append("]=");
        push_joined(out, &rows[k]);
        out.append("\n");
        proof {
            reveal_strlit("I[");
            reveal_strlit("]=");
            reveal_strlit("\n");
            assert(rv[k as int] == rows@[k as int].deep_view());
            assert(out@ =~= before + row_line(k as nat, rv[k as int]));
        }
        k = k + 1;
    }
}

/// Appends one section and the blank line that closes it.
fn push_section(out: &mut String, s: &Section)
    ensures
        final(out)@ == old(out)@ + section_text(
            (s.name@, (s.parameter_name@, s.value.deep_view())),
        ),
{
    let ghost start = out@;
    out.append("(");
    out.append(s.name.as_str());
    out.append(")->[");
    out.append(s.parameter_name.as_str());
    out.append("]\n");
    let ghost head = out@;
    push_rows(out, &s.value);
    let ghost body = out@;
    out.append("\n");
    proof {
        reveal_strlit("(");
        reveal_strlit(")->[");
        reveal_strlit("]\n");
        reveal_strlit("\n");
        assert(s.value.deep_view().len() == s.value@.len());
    }
    assert(out@ =~= start + section_text((s.name@, (s.parameter_name@, s.value.deep_view()))));
}

/// An owned copy of `name`.
pub fn to_string(name: &str) -> (r: String)
    ensures
        r@ == name@,
{
    name.to_owned()
}

/// Under unique names, the entry named `s[i].0` is at `i`.
proof fn lemma_index_of_unique<V>(s: Seq<(Seq<char>, V)>, k: Seq<char>, i: int)
    requires
        names_unique(s),
        0 <= i < s.len(),
        s[i].0 == k,
    ensures
        has_name(s, k),
        index_of(s, k) == i,
{
    assert(has_name(s, k));
    let j = index_of(s, k);
    if j != i {
        assert(s[j].0 != s[i].0);
    }
}

/// Setting an entry keeps names unique, and the name is then present.
proof fn lemma_upsert_unique<V>(s: Seq<(Seq<char>, V)>, k: Seq<char>, v: V)
    requires
        names_unique(s),
    ensures
        names_unique(upsert(s, k, v)),
        has_name(upsert(s, k, v), k),
{
    let t = upsert(s, k, v);
    if has_name(s, k) {
        let i = index_of(s, k);
        assert(t[i].0 == k);
        assert forall|a: int, b: int|
            0 <= a < t.len() && 0 <= b < t.len() && a != b implies #[trigger] t[a].0
            != #[trigger] t[b].0 by {
            assert(s[a].0 != s[b].0);
            assert(t[a].0 == s[a].0);
            assert(t[b].0 == s[b].0);
        }
    } else {
        assert(t[s.len() as int].0 == k);
        assert forall|a: int, b: int|
            0 <= a < t.len() && 0 <= b < t.len() && a != b implies #[trigger] t[a].0
            != #[trigger] t[b].0 by {
            if a < s.len() && b < s.len() {
                assert(s[a].0 != s[b].0);
            } else if a < s.len() {
                assert(s[a].0 != k);
            } else {
                assert(s[b].0 != k);
            }
        }
    }
}

/// The section named `k` with one more row at its end.
pub open spec fn push_row(
    ss: Seq<(Seq<char>, (Seq<char>, Seq<Seq<Seq<char>>>))>,
    k: Seq<char>,
    row: Seq<Seq<char>>,
) -> Seq<(Seq<char>, (Seq<char>, Seq<Seq<Seq<char>>>))> {
    let i = index_of(ss, k);
    ss.update(i, (ss[i].0, (ss[i].1.0, ss[i].1.1.push(row))))
}

impl PyVi {
    /// Names are unique among the parameters and among the sections.
    pub open spec fn wf(&self) -> bool {
        names_unique(self@.parameters) && names_unique(self@.sections)
    }

    /// An empty file that will be written under `filename`.
    pub fn create(filename: &str) -> (r: PyVi)
        ensures
            r.wf(),
            r@.filename == filename@,
            r@.parameters.len() == 0,
            r@.sections.len() == 0,
    {
        PyVi { filename: to_string(filename), parameters: Vec::new(), sections: Vec::new() }
    }

    /// The name under which the file is written.
    pub fn filename(&self) -> (r: &str)
        ensures
            r@ == self@.filename,
    {
        self.filename.as_str()
    }

    fn find_parameter(&self, key: &String) -> (r: Option<usize>)
        ensures
            r matches Some(i) ==> i < self@.parameters.len() && self@.parameters[i as int].0
                == key@,
            r is None ==> !has_name(self@.parameters, key@),
    {
        let mut i: usize = 0;
        while i < self.parameters.len()
            invariant
                i <= self.parameters@.len(),
                forall|j: int| 0 <= j < i ==> #[trigger] self@.parameters[j].0 != key@,
            decreases self.parameters@.len() - i,
        {
            if self.parameters[i].name == *key {
                return Some(i);
            }
            i = i + 1;
        }
        None
    }

    fn find_section(&self, key: &String) -> (r: Option<usize>)
        ensures
            r matches Some(i) ==> i < self@.sections.len() && self@.sections[i as int].0 == key@,
            r is None ==> !has_name(self@.sections, key@),
    {
        let mut i: usize = 0;
        while i < self.sections.len()
            invariant
                i <= self.sections@.len(),
                forall|j: int| 0 <= j < i ==> #[trigger] self@.sections[j].0 != key@,
            decreases self.sections@.len() - i,
        {
            if self.sections[i].name == *key {
                return Some(i);
            }
            i = i + 1;
        }
        None
    }

    /// Sets the parameter `name` to `value`, replacing the one of that name
    /// if there is one.
    pub fn create_parameter(&mut self, name: &str, value: Vec<String>)
        requires
            old(self).wf(),
        ensures
            final(self).wf(),
            final(self)@.parameters == upsert(old(self)@.parameters, name@, value.deep_view()),
            final(self)@.sections == old(self)@.sections,
            final(self)@.filename == old(self)@.filename,
    {
        let key = to_string(name);
        let ghost vv = value.deep_view();
        proof {
            lemma_upsert_unique(self@.parameters, name@, vv);
        }
        match self.find_parameter(&key) {
            Some(i) => {
                proof {
                    lemma_index_of_unique(self@.parameters, name@, i as int);
                }
                self.parameters[i] = Parameter { name: key, value };
            },
            None => {
                self.parameters.push(Parameter { name: key, value });
            },
        }
        assert(self@.parameters =~= upsert(old(self)@.parameters, name@, vv));
    }

    /// Opens an empty section `name` plotted against `parameter_name`,
    /// replacing the section of that name if there is one.
    pub fn create_section(&mut self, name: &str, parameter_name: &str)
        requires
            old(self).wf(),
        ensures
            final(self).wf(),
            final(self)@.sections == upsert(
                old(self)@.sections,
                name@,
                (parameter_name@, Seq::<Seq<Seq<char>>>::empty()),
            ),
            final(self)@.parameters == old(self)@.parameters,
            final(self)@.filename == old(self)@.filename,
    {
        let key = to_string(name);
        let ghost entry = (parameter_name@, Seq::<Seq<Seq<char>>>::empty());
        proof {
            lemma_upsert_unique(self@.sections, name@, entry);
        }
        let section = Section {
            name: key.clone(),
            parameter_name: to_string(parameter_name),
            value: Vec::new(),
        };
        assert(section.value.deep_view() =~= Seq::<Seq<Seq<char>>>::empty());
        match self.find_section(&key) {
            Some(i) => {
                proof {
                    lemma_index_of_unique(self@.sections, name@, i as int);
                }
                self.sections[i] = section;
            },
            None => {
                self.sections.push(section);
            },
        }
        assert(self@.sections =~= upsert(old(self)@.sections, name@, entry));
    }

    /// Whether a section is named `name`.
    pub fn has_section(&self, name: &str) -> (r: bool)
        ensures
            r == has_name(self@.sections, name@),
    {
        let key = to_string(name);
        self.find_section(&key).is_some()
    }

    /// Appends `data` as the next row of the section `name`.
    pub fn push_to_section(&mut self, name: &str, data: Vec<String>)
        requires
            old(self).wf(),
            has_name(old(self)@.sections, name@),
        ensures
            final(self).wf(),
            final(self)@.sections == push_row(old(self)@.sections, name@, data.deep_view()),
            final(self)@.parameters == old(self)@.parameters,
            final(self)@.filename == old(self)@.filename,
    {
        let key = to_string(name);
        let ghost dv = data.deep_view();
        let i = match self.find_section(&key) {
            Some(i) => i,
            None => {
                return;
            },
        };
        proof {
            lemma_index_of_unique(self@.sections, name@, i as int);
        }
        let ghost rows = self.sections@[i as int].value;
        self.sections[i].value.push(data);
        assert(self.sections@[i as int].value.deep_view() =~= rows.deep_view().push(dv));
        assert(self@.sections =~= push_row(old(self)@.sections, name@, dv));
        assert forall|a: int, b: int|
            0 <= a < self@.sections.len() && 0 <= b < self@.sections.len() && a
                != b implies #[trigger] self@.sections[a].0 != #[trigger] self@.sections[b].0 by {
            assert(old(self)@.sections[a].0 != old(self)@.sections[b].0);
        }
    }

    /// The cells of one vector, separated by commas.
    pub fn vector_as_string(vector: &Vec<String>) -> (r: String)
        ensures
            r@ == join(vector.deep_view()),
    {
        let mut out = String::new();
        push_joined(&mut out, vector);
        out
    }

    /// The text of the whole file.
    pub fn render(&self) -> (r: String)
        ensures
            r@ == render_spec(self@),
    {
        let ghost pv = self@.parameters;
        let ghost sv = self@.sections;
        let mut out = String::new();
        out.append("[Parameter]\n");
        let ghost head = out@;
        let mut i: usize = 0;
        while i < self.parameters.len()
            invariant
                i <= self.parameters@.len(),
                pv == self@.parameters,
                out@ == head + parameter_lines(pv, i as nat),
            decreases self.parameters@.len() - i,
        {
            push_parameter_line(&mut out, &self.parameters[i]);
            i = i + 1;
        }
        out.append("[Section]\n");
        let ghost mid = out@;
        let mut j: usize = 0;
        while j < self.sections.len()
            invariant
                j <= self.sections@.len(),
                sv == self@.sections,
                out@ == mid + section_texts(sv, j as nat),
            decreases self.sections@.len() - j,
        {
            push_section(&mut out, &self.sections[j]);
            j = j + 1;
        }
        proof {
            reveal_strlit("[Parameter]\n");
            reveal_strlit("[Section]\n");
        }
        assert(out@ =~= render_spec(self@));
        out
    }
}

} // verus!
