//! Rendering a security context as styled text.
//!
//! A context becomes a row of fragments, each a text with the role it plays
//! and the style that the colour scheme gives to that role, together with the
//! number of columns that the row takes.

use vstd::prelude::*;
use vstd::string::StringExecFns;
use vstd::utf8::encode_utf8;
use nu_ansi_term::Style;
use crate::context::{
    SecurityContext, SecurityContextType, SecurityContextView, WindowsSecurityContext,
    WindowsSecurityContextView,
};
use crate::label::{
    join_parts, label_parts, lemma_join_parts, lemma_label_parts_len, lemma_parts_of_plain_label,
    split_label, texts_of,
};
use crate::width::{column_width, display_width, is_plain, lemma_plain_is_ascii};

verus! {

/// `nu_ansi_term::Style`, carried from the colour scheme into the fragments
/// and never looked into.
#[verifier::external_type_specification]
#[verifier::external_body]
pub struct ExStyle(nu_ansi_term::Style);

/// The part that a fragment plays in a rendered context.
#[derive(Clone, Copy, PartialEq, Eq, Debug, Structural)]
pub enum StyleRole {
    /// The placeholder for a context that is not there.
    Absent,
    /// What stands between two parts.
    Separator,
    /// The first part of a label, or the owner.
    User,
    /// The second part of a label, or the group.
    Role,
    /// The third part of a label.
    Type,
    /// Each further part of a label.
    Range,
}

/// A text with its role and the style to show it in.
#[derive(PartialEq, Eq, Debug)]
pub struct StyledFragment {
    pub text: String,
    pub role: StyleRole,
    pub style: Style,
}

/// A [`StyledFragment`] with its text as a sequence.
pub struct FragmentView {
    pub text: Seq<char>,
    pub role: StyleRole,
    pub style: Style,
}

impl View for StyledFragment {
    type V = FragmentView;

    open spec fn view(&self) -> FragmentView {
        FragmentView { text: self.text@, role: self.role, style: self.style }
    }
}

/// A row of fragments and the number of columns it takes.
#[derive(PartialEq, Eq, Debug)]
pub struct TextCell {
    pub contents: Vec<StyledFragment>,
    pub width: usize,
}

/// A [`TextCell`] with its fragments as a sequence.
pub struct TextCellView {
    pub contents: Seq<FragmentView>,
    pub width: nat,
}

impl View for TextCell {
    type V = TextCellView;

    open spec fn view(&self) -> TextCellView {
        TextCellView {
            contents: self.contents@.map_values(|fragment: StyledFragment| fragment@),
            width: self.width as nat,
        }
    }
}

/// A colour scheme: one style for each role.
pub trait Colours {
    /// The style of the placeholder for a context that is not there.
    fn none(&self) -> Style;

    /// The style of separators.
    fn selinux_colon(&self) -> Style;

    /// The style of the first part of a label, and of an owner.
    fn selinux_user(&self) -> Style;

    /// The style of the second part of a label, and of a group.
    fn selinux_role(&self) -> Style;

    /// The style of the third part of a label.
    fn selinux_type(&self) -> Style;

    /// The style of each further part of a label.
    fn selinux_range(&self) -> Style;
}

/// The six styles of a colour scheme.
#[derive(Clone, Copy, PartialEq, Eq, Debug)]
pub struct Palette {
    pub none: Style,
    pub colon: Style,
    pub user: Style,
    pub role: Style,
    pub kind: Style,
    pub range: Style,
}

impl Palette {
    /// The style of a role.
    pub open spec fn style(self, role: StyleRole) -> Style {
        match role {
            StyleRole::Absent => self.none,
            StyleRole::Separator => self.colon,
            StyleRole::User => self.user,
            StyleRole::Role => self.role,
            StyleRole::Type => self.kind,
            StyleRole::Range => self.range,
        }
    }

    /// The style of a role.
    pub fn pick(&self, role: StyleRole) -> (style: Style)
        ensures
            style == self.style(role),
    {
        match role {
            StyleRole::Absent => self.none,
            StyleRole::Separator => self.colon,
            StyleRole::User => self.user,
            StyleRole::Role => self.role,
            StyleRole::Type => self.kind,
            StyleRole::Range => self.range,
        }
    }

    /// A fragment of `text` in the style of its role.
    pub fn fragment(&self, text: &str, role: StyleRole) -> (fragment: StyledFragment)
        ensures
            fragment@ == styled(*self, (text@, role)),
    {
        StyledFragment { text: String::from_str(text), role, style: self.pick(role) }
    }
}

/// The role of the part of a label at `index`: user, role, type, and range
/// from the fourth part on.
pub open spec fn part_role(index: int) -> StyleRole {
    if index == 0 {
        StyleRole::User
    } else if index == 1 {
        StyleRole::Role
    } else if index == 2 {
        StyleRole::Type
    } else {
        StyleRole::Range
    }
}

/// What stands between the owner and the group.
pub open spec fn owner_group_separator() -> Seq<char> {
    seq![' ', '/', ' ']
}

/// The texts and roles of a label: its parts in order, a colon between each
/// two neighbours.
pub open spec fn label_outline(label: Seq<char>) -> Seq<(Seq<char>, StyleRole)> {
    let parts = label_parts(label);
    Seq::new(
        (2 * parts.len() - 1) as nat,
        |k: int|
            if k % 2 == 0 {
                (parts[k / 2], part_role(k / 2))
            } else {
                (seq![':'], StyleRole::Separator)
            },
    )
}

/// The texts and roles of an owner and group: the owner, and where there is
/// a group, the separator and the group.
pub open spec fn owner_group_outline(info: WindowsSecurityContextView) -> Seq<
    (Seq<char>, StyleRole),
> {
    match info.group {
        Some(group) => seq![
            (info.owner, StyleRole::User),
            (owner_group_separator(), StyleRole::Separator),
            (group, StyleRole::Role),
        ],
        None => seq![(info.owner, StyleRole::User)],
    }
}

/// The texts and roles of a rendered context.
pub open spec fn outline(context: SecurityContextView) -> Seq<(Seq<char>, StyleRole)> {
    match context {
        SecurityContextView::SELinux(label) => label_outline(label),
        SecurityContextView::Windows(info) => owner_group_outline(info),
        SecurityContextView::Absent => seq![(seq!['?'], StyleRole::Absent)],
    }
}

/// The columns that an owner and group take: the sum of the widths of the
/// fragments.
pub open spec fn owner_group_width(info: WindowsSecurityContextView) -> nat {
    match info.group {
        Some(group) => column_width(info.owner) + column_width(owner_group_separator())
            + column_width(group),
        None => column_width(info.owner),
    }
}

/// The columns that a rendered context takes. A label counts one column for
/// each byte of its UTF-8 form.
pub open spec fn rendered_width(context: SecurityContextView) -> nat {
    match context {
        SecurityContextView::SELinux(label) => encode_utf8(label).len(),
        SecurityContextView::Windows(info) => owner_group_width(info),
        SecurityContextView::Absent => 1,
    }
}

/// A text and role as a fragment in the style that `palette` has for the role.
pub open spec fn styled(palette: Palette, piece: (Seq<char>, StyleRole)) -> FragmentView {
    FragmentView { text: piece.0, role: piece.1, style: palette.style(piece.1) }
}

/// The rendering of a context in the styles of `palette`.
pub open spec fn rendered(context: SecurityContextView, palette: Palette) -> TextCellView {
    TextCellView {
        contents: outline(context).map_values(
            |piece: (Seq<char>, StyleRole)| styled(palette, piece),
        ),
        width: rendered_width(context),
    }
}

impl SecurityContextView {
    /// The width of the rendering can be held in a `usize`.
    pub open spec fn fits(self) -> bool {
        self matches SecurityContextView::Windows(info) ==> owner_group_width(info) <= usize::MAX
    }
}

/// The texts of the fragments, one after another.
pub open spec fn shown_text(contents: Seq<FragmentView>) -> Seq<char>
    decreases contents.len(),
{
    if contents.len() == 0 {
        Seq::empty()
    } else {
        contents[0].text + shown_text(contents.skip(1))
    }
}

/// The sum of the displayed widths of the fragments.
pub open spec fn shown_width(contents: Seq<FragmentView>) -> nat
    decreases contents.len(),
{
    if contents.len() == 0 {
        0
    } else {
        column_width(contents[0].text) + shown_width(contents.skip(1))
    }
}

/// The number of fragments that play `role`.
pub open spec fn count_role(contents: Seq<FragmentView>, role: StyleRole) -> nat
    decreases contents.len(),
{
    if contents.len() == 0 {
        0
    } else {
        (if contents[0].role == role {
            1nat
        } else {
            0nat
        }) + count_role(contents.skip(1), role)
    }
}

/// Fragments that hold `parts` at the even places and a colon at the odd
/// ones.
pub open spec fn alternates(contents: Seq<FragmentView>, parts: Seq<Seq<char>>) -> bool {
    &&& contents.len() == 2 * parts.len() - 1
    &&& forall|k: int|
        0 <= k < contents.len() && k % 2 == 0 ==> {
            &&& (#[trigger] contents[k]).text == parts[k / 2]
            &&& contents[k].role == part_role(k / 2)
        }
    &&& forall|k: int|
        0 <= k < contents.len() && k % 2 == 1 ==> {
            &&& (#[trigger] contents[k]).text == seq![':']
            &&& contents[k].role == StyleRole::Separator
        }
}

proof fn lemma_alternating_tail(contents: Seq<FragmentView>, parts: Seq<Seq<char>>, from: int)
    requires
        alternates(contents, parts),
        0 <= from < parts.len(),
    ensures
        shown_text(contents.skip(2 * from)) == join_parts(parts.skip(from)),
        count_role(contents.skip(2 * from), StyleRole::Separator) == parts.len() - 1 - from,
        (forall|i: int| 0 <= i < parts.len() ==> is_plain(#[trigger] parts[i])) ==> shown_width(
            contents.skip(2 * from),
        ) == join_parts(parts.skip(from)).len(),
    decreases parts.len() - from,
{
    reveal_with_fuel(shown_text, 3);
    reveal_with_fuel(shown_width, 3);
    reveal_with_fuel(count_role, 3);
    reveal_with_fuel(join_parts, 2);
    let tail = contents.skip(2 * from);
    let rest = parts.skip(from);
    assert(tail[0] == contents[2 * from]);
    assert(rest[0] == parts[from]);
    if from == parts.len() - 1 {
        assert(tail.skip(1) =~= Seq::<FragmentView>::empty());
        assert(shown_text(tail) =~= tail[0].text);
    } else {
        lemma_alternating_tail(contents, parts, from + 1);
        assert(tail[1] == contents[2 * from + 1]);
        assert(tail.skip(1)[0] == tail[1]);
        assert(tail.skip(1).skip(1) =~= contents.skip(2 * (from + 1)));
        assert(rest.skip(1) =~= parts.skip(from + 1));
        assert(shown_text(tail) =~= tail[0].text + (seq![':'] + shown_text(
            contents.skip(2 * (from + 1)),
        )));
        assert(join_parts(rest) =~= rest[0] + seq![':'] + join_parts(rest.skip(1)));
        assert(is_plain(seq![':']));
    }
}

/// A label of `n` parts is rendered as `2n - 1` fragments: its parts at the
/// even places, each in the role of its index, and `n - 1` colons as
/// separators at the odd places. Read one after another the fragments give
/// the label back, and the width is the length of the label in bytes.
pub proof fn lemma_label_rendering(label: Seq<char>, palette: Palette)
    ensures
        ({
            let cell = rendered(SecurityContextView::SELinux(label), palette);
            let parts = label_parts(label);
            &&& alternates(cell.contents, parts)
            &&& count_role(cell.contents, StyleRole::Separator) == parts.len() - 1
            &&& cell.contents.len() - count_role(cell.contents, StyleRole::Separator)
                == parts.len()
            &&& shown_text(cell.contents) == label
            &&& cell.width == encode_utf8(label).len()
            &&& forall|k: int|
                0 <= k < cell.contents.len() ==> (#[trigger] cell.contents[k]).style
                    == palette.style(cell.contents[k].role)
        }),
{
    let contents = rendered(SecurityContextView::SELinux(label), palette).contents;
    let parts = label_parts(label);
    lemma_label_parts_len(label);
    lemma_join_parts(label);
    lemma_alternating_tail(contents, parts, 0);
    assert(contents.skip(0) =~= contents);
    assert(parts.skip(0) =~= parts);
}

/// An owner alone is rendered as one fragment as wide as the owner. An owner
/// and a group are rendered as three fragments, the owner, `" / "` and the
/// group, and are as wide as the three together.
pub proof fn lemma_owner_group_rendering(info: WindowsSecurityContextView, palette: Palette)
    ensures
        info.group is None ==> rendered(SecurityContextView::Windows(info), palette)
            == (TextCellView {
            contents: seq![styled(palette, (info.owner, StyleRole::User))],
            width: column_width(info.owner),
        }),
        info.group matches Some(group) ==> rendered(SecurityContextView::Windows(info), palette)
            == (TextCellView {
            contents: seq![
                styled(palette, (info.owner, StyleRole::User)),
                styled(palette, (seq![' ', '/', ' '], StyleRole::Separator)),
                styled(palette, (group, StyleRole::Role)),
            ],
            width: column_width(info.owner) + column_width(seq![' ', '/', ' ']) + column_width(
                group,
            ),
        }),
        column_width(seq![' ', '/', ' ']) == 3,
{
    let cell = rendered(SecurityContextView::Windows(info), palette);
    match info.group {
        Some(group) => {
            assert(cell.contents =~= seq![
                styled(palette, (info.owner, StyleRole::User)),
                styled(palette, (seq![' ', '/', ' '], StyleRole::Separator)),
                styled(palette, (group, StyleRole::Role)),
            ]);
        },
        None => {
            assert(cell.contents =~= seq![styled(palette, (info.owner, StyleRole::User))]);
        },
    }
    assert(is_plain(seq![' ', '/', ' ']));
}

/// A context that is not there is rendered as the single fragment `"?"` of
/// width 1.
pub proof fn lemma_absent_rendering(palette: Palette)
    ensures
        rendered(SecurityContextView::Absent, palette) == (TextCellView {
            contents: seq![
                FragmentView { text: seq!['?'], role: StyleRole::Absent, style: palette.none },
            ],
            width: 1,
        }),
{
    assert(rendered(SecurityContextView::Absent, palette).contents =~= seq![
        FragmentView { text: seq!['?'], role: StyleRole::Absent, style: palette.none },
    ]);
}

/// The width of a rendering is the sum of the displayed widths of its
/// fragments. For a label this is stated of plain labels: a label is counted
/// by its bytes, which any other character may outnumber or fall short of in
/// columns.
pub proof fn lemma_width_is_sum(context: SecurityContextView, palette: Palette)
    requires
        context matches SecurityContextView::SELinux(label) ==> is_plain(label),
    ensures
        rendered(context, palette).width == shown_width(rendered(context, palette).contents),
{
    let cell = rendered(context, palette);
    match context {
        SecurityContextView::SELinux(label) => {
            let parts = label_parts(label);
            lemma_label_rendering(label, palette);
            lemma_label_parts_len(label);
            lemma_join_parts(label);
            assert forall|i: int| 0 <= i < parts.len() implies is_plain(#[trigger] parts[i]) by {
                lemma_parts_of_plain_label(label, i);
            }
            lemma_alternating_tail(cell.contents, parts, 0);
            assert(cell.contents.skip(0) =~= cell.contents);
            assert(parts.skip(0) =~= parts);
            lemma_plain_is_ascii(label);
            vstd::utf8::is_ascii_chars_encode_utf8(label);
        },
        SecurityContextView::Windows(info) => {
            lemma_owner_group_rendering(info, palette);
            reveal_with_fuel(shown_width, 4);
            let contents = cell.contents;
            match info.group {
                Some(group) => {
                    assert(contents.skip(1).skip(1).skip(1) =~= Seq::<FragmentView>::empty());
                    assert(shown_width(contents) == column_width(info.owner) + column_width(
                        owner_group_separator(),
                    ) + column_width(group));
                },
                None => {
                    assert(contents.skip(1) =~= Seq::<FragmentView>::empty());
                    assert(shown_width(contents) == column_width(info.owner));
                },
            }
        },
        SecurityContextView::Absent => {
            lemma_absent_rendering(palette);
            assert(is_plain(seq!['?']));
            assert(cell.contents.skip(1) =~= Seq::<FragmentView>::empty());
        },
    }
}

/// The role of the part of a label at `index`.
pub fn content_role(index: usize) -> (role: StyleRole)
    ensures
        role == part_role(index as int),
{
    if index == 0 {
        StyleRole::User
    } else if index == 1 {
        StyleRole::Role
    } else if index == 2 {
        StyleRole::Type
    } else {
        StyleRole::Range
    }
}

fn absent_cell(palette: &Palette) -> (cell: TextCell)
    ensures
        cell@ == rendered(SecurityContextView::Absent, *palette),
{
    proof {
        reveal_strlit("?");
    }
    let mut contents: Vec<StyledFragment> = Vec::new();
    contents.push(palette.fragment("?", StyleRole::Absent));
    let cell = TextCell { contents, width: 1 };
    proof {
        assert("?"@ =~= seq!['?']);
        assert(cell@.contents =~= rendered(SecurityContextView::Absent, *palette).contents);
    }
    cell
}

fn label_cell(label: &str, palette: &Palette) -> (cell: TextCell)
    ensures
        cell@ == rendered(SecurityContextView::SELinux(label@), *palette),
{
    let parts = split_label(label);
    let ghost target = rendered(SecurityContextView::SELinux(label@), *palette).contents;
    proof {
        reveal_strlit(":");
        assert(":"@ =~= seq![':']);
        lemma_label_parts_len(label@);
    }
    let mut contents: Vec<StyledFragment> = Vec::new();
    let mut i: usize = 0;
    while i < parts.len()
        invariant
            i <= parts.len(),
            ":"@ == seq![':'],
            texts_of(parts@) == label_parts(label@),
            target == rendered(SecurityContextView::SELinux(label@), *palette).contents,
            contents@.len() == (if i == 0 { 0 } else { 2 * i - 1 }),
            forall|k: int| 0 <= k < contents@.len() ==> (#[trigger] contents@[k])@ == target[k],
        decreases parts.len() - i,
    {
        if i > 0 {
            contents.push(palette.fragment(":", StyleRole::Separator));
        }
        assert(texts_of(parts@)[i as int] == parts@[i as int]@);
        contents.push(palette.fragment(parts[i], content_role(i)));
        i += 1;
    }
    let cell = TextCell { contents, width: label.as_bytes().len() };
    proof {
        assert(cell@.contents =~= target);
    }
    cell
}

fn owner_group_cell(info: &WindowsSecurityContext, palette: &Palette) -> (cell: TextCell)
    requires
        owner_group_width(info@) <= usize::MAX,
    ensures
        cell@ == rendered(SecurityContextView::Windows(info@), *palette),
{
    let mut contents: Vec<StyledFragment> = Vec::new();
    let mut width = display_width(info.owner.as_str());
    contents.push(palette.fragment(info.owner.as_str(), StyleRole::User));
    match &info.group {
        Some(group) => {
            let separator = " / ";
            proof {
                reveal_strlit(" / ");
                assert(separator@ =~= owner_group_separator());
            }
            width += display_width(separator);
            contents.push(palette.fragment(separator, StyleRole::Separator));
            width += display_width(group.as_str());
            contents.push(palette.fragment(group.as_str(), StyleRole::Role));
        },
        None => {},
    }
    let cell = TextCell { contents, width };
    proof {
        assert(cell@.contents =~= rendered(
            SecurityContextView::Windows(info@),
            *palette,
        ).contents);
    }
    cell
}

impl<'a> SecurityContext<'a> {
    /// Tells whether the width of the rendering can be held in a `usize`.
    pub fn width_fits(&self) -> (fits: bool)
        ensures
            fits == self@.fits(),
    {
        match &self.context {
            SecurityContextType::Windows(info) => {
                let owner = display_width(info.owner.as_str());
                match &info.group {
                    Some(group) => {
                        proof {
                            reveal_strlit(" / ");
                            assert(" / "@ =~= owner_group_separator());
                        }
                        let separator = display_width(" / ");
                        let group = display_width(group.as_str());
                        match owner.checked_add(separator) {
                            Some(sum) => sum.checked_add(group).is_some(),
                            None => false,
                        }
                    },
                    None => true,
                }
            },
            _ => true,
        }
    }

    /// Renders the context in the styles of `palette`.
    pub fn render_with(&self, palette: &Palette) -> (cell: TextCell)
        requires
            self@.fits(),
        ensures
            cell@ == rendered(self@, *palette),
    {
        match &self.context {
            SecurityContextType::Absent => absent_cell(palette),
            SecurityContextType::SELinux(label) => label_cell(label, palette),
            SecurityContextType::Windows(info) => owner_group_cell(info, palette),
        }
    }

    /// Renders the context in the styles that `colours` gives.
    pub fn render<C: Colours>(&self, colours: &C) -> (cell: TextCell)
        requires
            self@.fits(),
        ensures
            exists|palette: Palette| cell@ == #[trigger] rendered(self@, palette),
    {
        let palette = Palette {
            none: colours.none(),
            colon: colours.selinux_colon(),
            user: colours.selinux_user(),
            role: colours.selinux_role(),
            kind: colours.selinux_type(),
            range: colours.selinux_range(),
        };
        let cell = self.render_with(&palette);
        assert(cell@ == rendered(self@, palette));
        cell
    }

    /// Renders the context where the width of the rendering can be held in a
    /// `usize`, and gives `None` where it cannot.
    pub fn try_render<C: Colours>(&self, colours: &C) -> (cell: Option<TextCell>)
        ensures
            cell is Some <==> self@.fits(),
            cell matches Some(cell) ==> exists|palette: Palette|
                cell@ == #[trigger] rendered(self@, palette),
    {
        if self.width_fits() {
            Some(self.render(colours))
        } else {
            None
        }
    }
}

} // verus!
