use vstd::prelude::*;

use crate::text::{chars_of, owned, push_char, push_str};

verus! {

/// A tree of path-component patterns: a path is wanted when it follows
/// some branch of the tree. An entry with no names is a wildcard; an entry
/// with no children accepts everything below it.
pub struct SDKEntry {
    names: Vec<String>,
    values: Vec<SDKEntry>,
}

/// The plain content of an entry tree.
pub struct PathPattern {
    pub names: Seq<Seq<char>>,
    pub children: Seq<PathPattern>,
}

/// Whether `path` follows `p`: every path that ends within the tree, or
/// reaches a leaf, matches; a component outside a named entry's names does
/// not.
pub open spec fn pattern_matches(p: PathPattern, path: Seq<Seq<char>>) -> bool
    decreases p,
{
    if path.len() == 0 {
        true
    } else if p.names.len() > 0 && !p.names.contains(path[0]) {
        false
    } else if p.children.len() == 0 {
        true
    } else {
        any_child_matches(p.children, path.drop_first())
    }
}

/// Whether `path` follows one of the patterns `cs`.
pub open spec fn any_child_matches(cs: Seq<PathPattern>, path: Seq<Seq<char>>) -> bool
    decreases cs,
{
    if cs.len() == 0 {
        false
    } else {
        pattern_matches(cs[0], path) || any_child_matches(cs.drop_first(), path)
    }
}

/// The components of `s` between `/` separators, empty ones included, as
/// `str::split('/')` yields them.
pub open spec fn split_on_slash(s: Seq<char>) -> Seq<Seq<char>>
    decreases s.len(),
{
    if s.len() == 0 {
        seq![Seq::empty()]
    } else {
        let parts = split_on_slash(s.drop_last());
        if s.last() == '/' {
            parts.push(Seq::empty())
        } else {
            parts.update(parts.len() - 1, parts.last().push(s.last()))
        }
    }
}

proof fn lemma_split_nonempty(s: Seq<char>)
    ensures
        split_on_slash(s).len() >= 1,
    decreases s.len(),
{
    if s.len() > 0 {
        lemma_split_nonempty(s.drop_last());
    }
}

/// The characters of each string.
pub open spec fn views_of(v: Seq<String>) -> Seq<Seq<char>> {
    v.map_values(|s: String| s@)
}

/// A chain of single-name entries for `parts`, whose last entry has
/// `children`.
pub open spec fn chain(parts: Seq<Seq<char>>, children: Seq<PathPattern>) -> PathPattern
    decreases parts.len(),
{
    if parts.len() <= 1 {
        PathPattern { names: parts, children }
    } else {
        PathPattern { names: seq![parts[0]], children: seq![chain(parts.drop_first(), children)] }
    }
}

/// Whether the entry tree `e` has the content `p`.
pub closed spec fn represents(e: SDKEntry, p: PathPattern) -> bool
    decreases e,
{
    views_of(e.names@) == p.names && all_represent(e.values@, p.children)
}

/// Whether each of `values` has the content at the same place in `ps`.
pub closed spec fn all_represent(values: Seq<SDKEntry>, ps: Seq<PathPattern>) -> bool
    decreases values,
{
    values.len() == ps.len() && (values.len() > 0 ==> represents(values[0], ps[0]) && all_represent(
        values.drop_first(),
        ps.drop_first(),
    ))
}

impl SDKEntry {
    /// An entry with the given names (none: a wildcard) and children.
    pub fn new(names: Vec<String>, values: Vec<SDKEntry>) -> (r: SDKEntry)
        ensures
            forall|ps: Seq<PathPattern>|
                all_represent(values@, ps) ==> represents(r, 
                    PathPattern { names: views_of(names@), children: ps },
                ),
    {
        SDKEntry { names, values }
    }

    /// An entry with the single name `name`.
    pub fn from_name(name: &str, values: Vec<SDKEntry>) -> (r: SDKEntry)
        ensures
            forall|ps: Seq<PathPattern>|
                all_represent(values@, ps) ==> represents(r, 
                    PathPattern { names: seq![name@], children: ps },
                ),
    {
        let mut set: Vec<String> = Vec::new();
        set.push(owned(name));
        assert(views_of(set@) =~= seq![name@]);
        SDKEntry::new(set, values)
    }

    /// Whether the path `path` follows this tree.
    pub fn matches(&self, path: &Vec<String>) -> (r: bool)
        ensures
            forall|p: PathPattern| #[trigger] represents(*self, p) ==> r == pattern_matches(p, views_of(path@)),
    {
        let r = self.matches_from(path, 0);
        assert(views_of(path@).skip(0) =~= views_of(path@));
        r
    }

    fn matches_from(&self, path: &Vec<String>, start: usize) -> (r: bool)
        requires
            start <= path.len(),
        ensures
            forall|p: PathPattern| #[trigger] represents(*self, p) ==> r == pattern_matches(
                p,
                views_of(path@).skip(start as int),
            ),
        decreases self,
    {
        let ghost rest = views_of(path@).skip(start + 1);
        if start == path.len() {
            return true;
        }
        let first = &path[start];
        assert(views_of(path@).skip(start as int).drop_first() =~= rest);
        assert(views_of(path@).skip(start as int)[0] == first@);
        if self.names.len() > 0 && !names_hold(&self.names, first) {
            return false;
        }
        if self.values.len() == 0 {
            return true;
        }
        let mut j: usize = 0;
        assert(self.values@.skip(0) =~= self.values@);
        assert forall|p: PathPattern| #[trigger] represents(*self, p) implies p.children.skip(0) == p.children by {
            assert(p.children.skip(0) =~= p.children);
        }
        assert forall|p: PathPattern| #[trigger] represents(*self, p) implies pattern_matches(
            p,
            views_of(path@).skip(start as int),
        ) == any_child_matches(p.children, rest) by {
            assert(views_of(self.names@).len() == self.names.len());
        }
        while j < self.values.len()
            invariant
                start < path.len(),
                rest == views_of(path@).skip(start + 1),
                forall|p: PathPattern| #[trigger] represents(*self, p) ==> pattern_matches(
                    p,
                    views_of(path@).skip(start as int),
                ) == any_child_matches(p.children, rest),
                j <= self.values.len(),
                forall|p: PathPattern| #[trigger] represents(*self, p) ==> {
                    &&& all_represent(self.values@.skip(j as int), p.children.skip(j as int))
                    &&& any_child_matches(p.children, rest) == any_child_matches(p.children.skip(j as int), rest)
                },
            decreases self.values.len() - j,
        {
            assert(decreases_to!(self.values => self.values[j as int]));
            let hit = self.values[j].matches_from(path, start + 1);
            assert(self.values@.skip(j as int)[0] == self.values[j as int]);
            assert(self.values@.skip(j as int).drop_first() =~= self.values@.skip(j + 1));
            assert forall|p: PathPattern| #[trigger] represents(*self, p) implies {
                &&& all_represent(self.values@.skip(j + 1), p.children.skip(j + 1))
                &&& any_child_matches(p.children.skip(j as int), rest) == (hit || any_child_matches(
                    p.children.skip(j + 1),
                    rest,
                ))
            } by {
                let cs = p.children.skip(j as int);
                assert(cs.drop_first() =~= p.children.skip(j + 1));
                assert(all_represent(self.values@.skip(j as int), cs));
                assert(represents(self.values[j as int], cs[0]));
            }
            if hit {
                return true;
            }
            j = j + 1;
        }
        assert forall|p: PathPattern| #[trigger] represents(*self, p) implies !any_child_matches(
            p.children.skip(j as int),
            rest,
        ) by {
            assert(all_represent(self.values@.skip(j as int), p.children.skip(j as int)));
        }
        false
    }
}

proof fn lemma_all_represent_empty()
    ensures
        all_represent(Seq::<SDKEntry>::empty(), Seq::<PathPattern>::empty()),
{
}

proof fn lemma_all_represent_cons(v: SDKEntry, vs: Seq<SDKEntry>, p: PathPattern, ps: Seq<PathPattern>)
    requires
        represents(v, p),
        all_represent(vs, ps),
    ensures
        all_represent(seq![v] + vs, seq![p] + ps),
{
    assert((seq![v] + vs).drop_first() =~= vs);
    assert((seq![p] + ps).drop_first() =~= ps);
}

/// The components of `s` split at each `/`.
fn split_slash(s: &str) -> (r: Vec<String>)
    ensures
        views_of(r@) == split_on_slash(s@),
{
    let cs = chars_of(s);
    let mut parts: Vec<String> = Vec::new();
    let mut cur = String::new();
    let mut i: usize = 0;
    assert(cs@.take(0) =~= Seq::<char>::empty());
    assert(views_of(parts@).push(cur@) =~= split_on_slash(cs@.take(0)));
    while i < cs.len()
        invariant
            i <= cs.len(),
            cs@ == s@,
            views_of(parts@).push(cur@) == split_on_slash(cs@.take(i as int)),
        decreases cs.len() - i,
    {
        assert(cs@.take(i + 1).drop_last() =~= cs@.take(i as int));
        let c = cs[i];
        if c == '/' {
            let done = cur;
            parts.push(done);
            cur = String::new();
            assert(views_of(parts@).push(cur@) =~= split_on_slash(cs@.take(i + 1)));
        } else {
            let ghost before = cur@;
            push_char(&mut cur, c);
            assert(views_of(parts@).push(cur@) =~= views_of(parts@).push(before).update(
                parts.len() as int,
                before.push(c),
            ));
        }
        i = i + 1;
    }
    assert(cs@.take(cs.len() as int) =~= cs@);
    parts.push(cur);
    assert(views_of(parts@) =~= split_on_slash(s@));
    parts
}

impl SDKEntry {
    /// The entry for a `/`-separated `name`: a chain of single-name entries,
    /// one per component, whose last one has `values`; with no name, a
    /// wildcard entry with `values`.
    pub fn e(name: Option<&str>, values: Vec<SDKEntry>) -> (r: SDKEntry)
        ensures
            forall|ps: Seq<PathPattern>|
                all_represent(values@, ps) ==> represents(
                    r,
                    match name {
                        Some(n) => chain(split_on_slash(n@), ps),
                        None => PathPattern { names: Seq::empty(), children: ps },
                    },
                ),
    {
        let ghost vs = values@;
        match name {
            None => {
                let r = SDKEntry::new(Vec::new(), values);
                assert(views_of(Seq::<String>::empty()) =~= Seq::<Seq<char>>::empty());
                r
            },
            Some(n) => {
                let parts = split_slash(n);
                proof {
                    lemma_split_nonempty(n@);
                }
                let ghost pv = views_of(parts@);
                let last = parts.len() - 1;
                let mut entry = SDKEntry::from_name(parts[last].as_str(), values);
                assert forall|ps: Seq<PathPattern>| all_represent(vs, ps) implies represents(
                    entry,
                    chain(pv.skip(last as int), ps),
                ) by {
                    assert(pv.skip(last as int) =~= seq![parts[last as int]@]);
                }
                let mut k: usize = last;
                while k > 0
                    invariant
                        k <= last < parts.len(),
                        pv == views_of(parts@),
                        forall|ps: Seq<PathPattern>|
                            all_represent(vs, ps) ==> represents(entry, chain(pv.skip(k as int), ps)),
                    decreases k,
                {
                    let ghost inner = entry;
                    let mut wrapped: Vec<SDKEntry> = Vec::new();
                    wrapped.push(entry);
                    assert(wrapped@ =~= seq![inner]);
                    let label = parts[k - 1].as_str();
                    entry = SDKEntry::from_name(label, wrapped);
                    assert forall|ps: Seq<PathPattern>| all_represent(vs, ps) implies represents(
                        entry,
                        chain(pv.skip(k - 1), ps),
                    ) by {
                        let cp = chain(pv.skip(k as int), ps);
                        lemma_all_represent_empty();
                        lemma_all_represent_cons(inner, Seq::empty(), cp, Seq::empty());
                        assert(seq![inner] + Seq::<SDKEntry>::empty() =~= seq![inner]);
                        assert(seq![cp] + Seq::<PathPattern>::empty() =~= seq![cp]);
                        assert(pv.skip(k - 1).drop_first() =~= pv.skip(k as int));
                        assert(pv.skip(k - 1)[0] == parts[k - 1]@);
                        assert(all_represent(seq![inner], seq![cp]));
                        assert(represents(entry, PathPattern { names: seq![label@], children: seq![cp] }));
                        assert(chain(pv.skip(k - 1), ps) == PathPattern { names: seq![label@], children: seq![cp] });
                    }
                    k = k - 1;
                }
                assert(pv.skip(0) =~= pv);
                entry
            },
        }
    }
}

/// A leaf pattern for the `/`-separated `name`.
pub open spec fn leaf(name: Seq<char>) -> PathPattern {
    chain(split_on_slash(name), Seq::empty())
}

/// The pattern for the developer directory of a platform.
pub open spec fn platform_pattern(platform: Seq<char>) -> PathPattern {
    chain(
        split_on_slash(platform + PLATFORM_SUFFIX@),
        seq![
            leaf(SDKS@),
            chain(split_on_slash(LIBRARY@), seq![leaf(FRAMEWORKS@), leaf(PRIVATE_FRAMEWORKS@)]),
            leaf(USR_LIB@),
        ],
    )
}

/// The parts of a developer directory worth extracting: the default
/// toolchain's Swift and Clang libraries, and the SDKs, frameworks and
/// libraries of the iPhoneOS, MacOSX and iPhoneSimulator platforms.
pub open spec fn wanted_pattern() -> PathPattern {
    chain(
        split_on_slash(DEVELOPER_ROOT@),
        seq![
            chain(
                split_on_slash(TOOLCHAIN_LIB@),
                seq![leaf(SWIFT@), leaf(SWIFT_STATIC@), leaf(CLANG@)],
            ),
            chain(
                split_on_slash(PLATFORMS@),
                seq![
                    platform_pattern(IPHONE_OS@),
                    platform_pattern(MAC_OS@),
                    platform_pattern(IPHONE_SIMULATOR@),
                ],
            ),
        ],
    )
}

pub const DEVELOPER_ROOT: &'static str = "Contents/Developer";
pub const TOOLCHAIN_LIB: &'static str = "Toolchains/XcodeDefault.xctoolchain/usr/lib";
pub const SWIFT: &'static str = "swift";
pub const SWIFT_STATIC: &'static str = "swift_static";
pub const CLANG: &'static str = "clang";
pub const PLATFORMS: &'static str = "Platforms";
pub const PLATFORM_SUFFIX: &'static str = ".platform/Developer";
pub const IPHONE_OS: &'static str = "iPhoneOS";
pub const MAC_OS: &'static str = "MacOSX";
pub const IPHONE_SIMULATOR: &'static str = "iPhoneSimulator";
pub const SDKS: &'static str = "SDKs";
pub const LIBRARY: &'static str = "Library";
pub const FRAMEWORKS: &'static str = "Frameworks";
pub const PRIVATE_FRAMEWORKS: &'static str = "PrivateFrameworks";
pub const USR_LIB: &'static str = "usr/lib";

proof fn lemma_all_represent_two(a: SDKEntry, b: SDKEntry, pa: PathPattern, pb: PathPattern)
    requires
        represents(a, pa),
        represents(b, pb),
    ensures
        all_represent(seq![a, b], seq![pa, pb]),
{
    lemma_all_represent_empty();
    lemma_all_represent_cons(b, Seq::empty(), pb, Seq::empty());
    assert(seq![b] + Seq::<SDKEntry>::empty() =~= seq![b]);
    assert(seq![pb] + Seq::<PathPattern>::empty() =~= seq![pb]);
    lemma_all_represent_cons(a, seq![b], pa, seq![pb]);
    assert(seq![a] + seq![b] =~= seq![a, b]);
    assert(seq![pa] + seq![pb] =~= seq![pa, pb]);
}

proof fn lemma_all_represent_three(
    a: SDKEntry,
    b: SDKEntry,
    c: SDKEntry,
    pa: PathPattern,
    pb: PathPattern,
    pc: PathPattern,
)
    requires
        represents(a, pa),
        represents(b, pb),
        represents(c, pc),
    ensures
        all_represent(seq![a, b, c], seq![pa, pb, pc]),
{
    lemma_all_represent_two(b, c, pb, pc);
    lemma_all_represent_cons(a, seq![b, c], pa, seq![pb, pc]);
    assert(seq![a] + seq![b, c] =~= seq![a, b, c]);
    assert(seq![pa] + seq![pb, pc] =~= seq![pa, pb, pc]);
}

/// A leaf entry for the `/`-separated `name`.
fn leaf_entry(name: &str) -> (r: SDKEntry)
    ensures
        represents(r, leaf(name@)),
{
    let none: Vec<SDKEntry> = Vec::new();
    proof {
        lemma_all_represent_empty();
        assert(none@ =~= Seq::<SDKEntry>::empty());
    }
    SDKEntry::e(Some(name), none)
}

/// The entry for the developer directory of `platform`.
fn platform_entry(platform: &str) -> (r: SDKEntry)
    ensures
        represents(r, platform_pattern(platform@)),
{
    let mut dir = owned(platform);
    push_str(&mut dir, PLATFORM_SUFFIX);
    let sdks = leaf_entry(SDKS);
    let frameworks = leaf_entry(FRAMEWORKS);
    let private_frameworks = leaf_entry(PRIVATE_FRAMEWORKS);
    let ghost (f, pf) = (frameworks, private_frameworks);
    let library = SDKEntry::e(Some(LIBRARY), vec![frameworks, private_frameworks]);
    proof {
        lemma_all_represent_two(f, pf, leaf(FRAMEWORKS@), leaf(PRIVATE_FRAMEWORKS@));
    }
    let usr_lib = leaf_entry(USR_LIB);
    let ghost (s0, l0, u0) = (sdks, library, usr_lib);
    let r = SDKEntry::e(Some(dir.as_str()), vec![sdks, library, usr_lib]);
    proof {
        lemma_all_represent_three(
            s0,
            l0,
            u0,
            leaf(SDKS@),
            chain(split_on_slash(LIBRARY@), seq![leaf(FRAMEWORKS@), leaf(PRIVATE_FRAMEWORKS@)]),
            leaf(USR_LIB@),
        );
    }
    r
}

/// The tree of the parts of a developer directory worth extracting.
pub fn wanted_sdk_entry() -> (r: SDKEntry)
    ensures
        represents(r, wanted_pattern()),
{
    let swift = leaf_entry(SWIFT);
    let swift_static = leaf_entry(SWIFT_STATIC);
    let clang = leaf_entry(CLANG);
    let ghost (a, b, c) = (swift, swift_static, clang);
    let toolchain = SDKEntry::e(Some(TOOLCHAIN_LIB), vec![swift, swift_static, clang]);
    proof {
        lemma_all_represent_three(a, b, c, leaf(SWIFT@), leaf(SWIFT_STATIC@), leaf(CLANG@));
    }
    let ios = platform_entry(IPHONE_OS);
    let mac = platform_entry(MAC_OS);
    let sim = platform_entry(IPHONE_SIMULATOR);
    let ghost (i0, m0, s0) = (ios, mac, sim);
    let platforms = SDKEntry::e(Some(PLATFORMS), vec![ios, mac, sim]);
    proof {
        lemma_all_represent_three(
            i0,
            m0,
            s0,
            platform_pattern(IPHONE_OS@),
            platform_pattern(MAC_OS@),
            platform_pattern(IPHONE_SIMULATOR@),
        );
    }
    let ghost (t0, p0) = (toolchain, platforms);
    let r = SDKEntry::e(Some(DEVELOPER_ROOT), vec![toolchain, platforms]);
    proof {
        lemma_all_represent_two(
            t0,
            p0,
            chain(split_on_slash(TOOLCHAIN_LIB@), seq![leaf(SWIFT@), leaf(SWIFT_STATIC@), leaf(CLANG@)]),
            chain(
                split_on_slash(PLATFORMS@),
                seq![
                    platform_pattern(IPHONE_OS@),
                    platform_pattern(MAC_OS@),
                    platform_pattern(IPHONE_SIMULATOR@),
                ],
            ),
        );
    }
    r
}

/// Whether `c` is an ordinary path component: not empty, `.` or `..`.
pub open spec fn is_normal_component(c: Seq<char>) -> bool {
    c.len() > 0 && c != seq!['.'] && c != seq!['.', '.']
}

/// The ordinary components of a `/`-separated path, in order, as
/// `Path::components` yields them on Unix.
pub open spec fn normal_components(path: Seq<char>) -> Seq<Seq<char>> {
    split_on_slash(path).filter(|c: Seq<char>| is_normal_component(c))
}

/// Whether `c` names an application bundle.
pub open spec fn is_bundle_name(c: Seq<char>) -> bool {
    c.len() >= 4 && c.subrange(c.len() - 4, c.len() as int) == seq!['.', 'a', 'p', 'p']
}

/// The components relative to the bundle: a leading `*.app` is dropped.
pub open spec fn bundle_relative(cs: Seq<Seq<char>>) -> Seq<Seq<char>> {
    if cs.len() > 0 && is_bundle_name(cs[0]) {
        cs.drop_first()
    } else {
        cs
    }
}

/// The toolchain directory whose prebuilt modules are left out.
pub open spec fn swift_lib_prefix() -> Seq<Seq<char>> {
    seq![
        CONTENTS@,
        DEVELOPER@,
        TOOLCHAINS@,
        XCODE_TOOLCHAIN@,
        USR@,
        LIB@,
        SWIFT@,
    ]
}

/// Whether `cs` lies in the prebuilt modules of the toolchain's Swift
/// libraries (its tenth component is `prebuilt-modules`).
pub open spec fn is_prebuilt_module_path(cs: Seq<Seq<char>>) -> bool {
    cs.len() >= 10 && cs[9] == PREBUILT_MODULES@ && cs.take(7) == swift_lib_prefix()
}

/// Whether the path `path`, relative to the bundle or developer directory
/// being extracted, is worth extracting.
pub open spec fn wanted_path(path: Seq<char>) -> bool {
    let cs = bundle_relative(normal_components(path));
    pattern_matches(wanted_pattern(), cs) && !is_prebuilt_module_path(cs)
}

pub const CONTENTS: &'static str = "Contents";
pub const DEVELOPER: &'static str = "Developer";
pub const TOOLCHAINS: &'static str = "Toolchains";
pub const XCODE_TOOLCHAIN: &'static str = "XcodeDefault.xctoolchain";
pub const USR: &'static str = "usr";
pub const LIB: &'static str = "lib";
pub const PREBUILT_MODULES: &'static str = "prebuilt-modules";

fn normal_component(c: &String) -> (r: bool)
    ensures
        r == is_normal_component(c@),
{
    let cs = chars_of(c.as_str());
    if cs.len() == 0 {
        return false;
    }
    if cs.len() == 1 && cs[0] == '.' {
        assert(c@ =~= seq!['.']);
        return false;
    }
    if cs.len() == 2 && cs[0] == '.' && cs[1] == '.' {
        assert(c@ =~= seq!['.', '.']);
        return false;
    }
    assert(c@.len() == 1 ==> c@ != seq!['.'] || c@[0] == '.');
    true
}

fn bundle_name(c: &String) -> (r: bool)
    ensures
        r == is_bundle_name(c@),
{
    let cs = chars_of(c.as_str());
    let n = cs.len();
    if n < 4 {
        return false;
    }
    let r = cs[n - 4] == '.' && cs[n - 3] == 'a' && cs[n - 2] == 'p' && cs[n - 1] == 'p';
    let ghost tail = c@.subrange(n - 4, n as int);
    assert(r ==> tail =~= seq!['.', 'a', 'p', 'p']);
    assert(tail == seq!['.', 'a', 'p', 'p'] ==> tail[0] == '.' && tail[1] == 'a' && tail[2] == 'p'
        && tail[3] == 'p');
    r
}

/// The ordinary components of `path`.
fn path_components(path: &str) -> (r: Vec<String>)
    ensures
        views_of(r@) == normal_components(path@),
{
    let parts = split_slash(path);
    let ghost all = views_of(parts@);
    let ghost pred = |c: Seq<char>| is_normal_component(c);
    let mut r: Vec<String> = Vec::new();
    let mut i: usize = 0;
    while i < parts.len()
        invariant
            i <= parts.len(),
            all == views_of(parts@),
            pred == (|c: Seq<char>| is_normal_component(c)),
            views_of(r@) == all.take(i as int).filter(pred),
        decreases parts.len() - i,
    {
        assert(all.take(i + 1).drop_last() =~= all.take(i as int));
        assert(all.take(i + 1).last() == parts[i as int]@);
        proof {
            reveal(Seq::filter);
        }
        if normal_component(&parts[i]) {
            let ghost before = r@;
            r.push(parts[i].clone());
            assert(views_of(r@) =~= views_of(before).push(parts[i as int]@));
        }
        i = i + 1;
    }
    assert(all.take(parts.len() as int) =~= all);
    r
}

/// Whether `path`, relative to the bundle or developer directory being
/// extracted, is worth extracting.
pub fn is_wanted(path: &str) -> (r: bool)
    ensures
        r == wanted_path(path@),
{
    let mut components = path_components(path);
    if components.len() > 0 && bundle_name(&components[0]) {
        let ghost before = components@;
        components.remove(0);
        assert(views_of(components@) =~= views_of(before).drop_first());
    }
    let ghost cs = views_of(components@);
    assert(cs == bundle_relative(normal_components(path@)));
    let tree = wanted_sdk_entry();
    let follows = tree.matches(&components);
    assert(follows == pattern_matches(wanted_pattern(), cs));
    if !follows {
        return false;
    }
    if components.len() >= 10 && components[9] == owned(PREBUILT_MODULES) {
        let prefix = vec![
            owned(CONTENTS),
            owned(DEVELOPER),
            owned(TOOLCHAINS),
            owned(XCODE_TOOLCHAIN),
            owned(USR),
            owned(LIB),
            owned(SWIFT),
        ];
        assert(views_of(prefix@) =~= swift_lib_prefix());
        let mut i: usize = 0;
        while i < 7
            invariant
                i <= 7,
                prefix.len() == 7,
                cs == bundle_relative(normal_components(path@)),
                pattern_matches(wanted_pattern(), cs),
                components.len() >= 10,
                cs == views_of(components@),
                views_of(prefix@) == swift_lib_prefix(),
                forall|k: int| 0 <= k < i ==> cs[k] == swift_lib_prefix()[k],
            decreases 7 - i,
        {
            if !(components[i] == prefix[i]) {
                assert(cs.take(7)[i as int] != swift_lib_prefix()[i as int]);
                return true;
            }
            i = i + 1;
        }
        assert(cs.take(7) =~= swift_lib_prefix());
        return false;
    }
    true
}

/// Where a file at relative path `cs` goes under the destination: a
/// leading `Contents/Developer` is stripped (as is a lone leading
/// `Developer`); any other path keeps all of its components.
pub open spec fn developer_relative(cs: Seq<Seq<char>>) -> Seq<Seq<char>> {
    if cs.len() == 0 {
        cs
    } else if cs[0] == CONTENTS@ {
        if cs.len() == 1 {
            Seq::empty()
        } else if cs[1] == DEVELOPER@ {
            cs.skip(2)
        } else {
            cs
        }
    } else if cs[0] == DEVELOPER@ {
        cs.drop_first()
    } else {
        cs
    }
}

/// The components, under the destination directory, of the file at
/// relative path `rel`.
pub fn destination_components(rel: &str) -> (r: Vec<String>)
    ensures
        views_of(r@) == developer_relative(normal_components(rel@)),
{
    let cs = path_components(rel);
    let ghost v = views_of(cs@);
    let contents = owned(CONTENTS);
    let developer = owned(DEVELOPER);
    let skip: usize = if cs.len() == 0 {
        0
    } else if cs[0] == contents {
        if cs.len() == 1 {
            1
        } else if cs[1] == developer {
            2
        } else {
            0
        }
    } else if cs[0] == developer {
        1
    } else {
        0
    };
    let mut r: Vec<String> = Vec::new();
    let mut i: usize = skip;
    while i < cs.len()
        invariant
            skip <= i <= cs.len(),
            v == views_of(cs@),
            views_of(r@) == v.subrange(skip as int, i as int),
        decreases cs.len() - i,
    {
        let ghost before = r@;
        r.push(cs[i].clone());
        assert(views_of(r@) =~= views_of(before).push(cs[i as int]@));
        assert(v.subrange(skip as int, i + 1) =~= v.subrange(skip as int, i as int).push(v[i as int]));
        i = i + 1;
    }
    assert(v.subrange(skip as int, v.len() as int) =~= developer_relative(v));
    r
}

/// Whether one of `names` equals `name`.
fn names_hold(names: &Vec<String>, name: &String) -> (r: bool)
    ensures
        r == views_of(names@).contains(name@),
{
    let mut i: usize = 0;
    while i < names.len()
        invariant
            i <= names.len(),
            forall|k: int| 0 <= k < i ==> names@[k]@ != name@,
        decreases names.len() - i,
    {
        if names[i] == *name {
            assert(views_of(names@)[i as int] == name@);
            return true;
        }
        i = i + 1;
    }
    assert(!views_of(names@).contains(name@)) by {
        if views_of(names@).contains(name@) {
            let k = choose|k: int| 0 <= k < views_of(names@).len() && views_of(names@)[k] == name@;
            assert(names@[k]@ == name@);
        }
    }
    false
}

} // verus!
