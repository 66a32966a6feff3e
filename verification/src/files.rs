//! The source files of the environment: their names, texts and hashes, the address aliases
//! that each declares, and whether each belongs to a dependency; adding a file, which
//! resolves the addresses of the standard and extension libraries; finding files by hash and
//! by index.

use codespan_reporting::files::Error as FilesError;
use sha2::{Digest, Sha256};
use vstd::prelude::*;

use crate::address::Address;
use crate::diag::{located_diag, with_diag, Severity};
use crate::env::{GlobalEnv, ModuleData, ModuleEnv};
use crate::loc::{FileId, Loc, LocView, Span};
use crate::symbol::{Symbol, made};
use crate::text::{decimal, decimal_string};

verus! {

/// The SHA-256 digest of the UTF-8 bytes of `text`, as `sha2::Sha256::digest` computes it.
pub uninterp spec fn sha256_digest(text: Seq<char>) -> Seq<u8>;

/// Calls `sha2::Sha256::digest` on the UTF-8 bytes of `text`. The result is the digest that
/// `sha256_digest` names, 32 bytes long, as every SHA-256 digest is; nothing more is said of
/// its bytes.
#[verifier::external_body]
fn sha256(text: &str) -> (r: Vec<u8>)
    ensures
        r@ == sha256_digest(text@),
        r@.len() == 32,
{
    Sha256::digest(text.as_bytes()).to_vec()
}

/// `a` comes before `b` as byte strings: at the first position where they differ `a` has the
/// lower byte, or `a` is a proper prefix of `b`.
pub open spec fn bytes_lt(a: Seq<u8>, b: Seq<u8>) -> bool
    decreases a.len(),
{
    if a.len() == 0 {
        b.len() > 0
    } else if b.len() == 0 {
        false
    } else if a[0] != b[0] {
        a[0] < b[0]
    } else {
        bytes_lt(a.drop_first(), b.drop_first())
    }
}

/// No byte string comes before itself, and of two different byte strings exactly one comes
/// before the other.
pub proof fn lemma_bytes_lt_total(a: Seq<u8>, b: Seq<u8>)
    ensures
        !bytes_lt(a, a),
        a != b ==> bytes_lt(a, b) || bytes_lt(b, a),
        !(bytes_lt(a, b) && bytes_lt(b, a)),
    decreases a.len(),
{
    lemma_bytes_lt_irreflexive(a);
    if a.len() == 0 {
        if b.len() == 0 {
            assert(a =~= b);
        }
    } else if b.len() > 0 {
        lemma_bytes_lt_total(a.drop_first(), b.drop_first());
        if a[0] == b[0] && a.drop_first() == b.drop_first() {
            assert(a =~= seq![a[0]] + a.drop_first());
            assert(b =~= seq![b[0]] + b.drop_first());
        }
    }
}

/// No byte string comes before itself.
proof fn lemma_bytes_lt_irreflexive(a: Seq<u8>)
    ensures
        !bytes_lt(a, a),
    decreases a.len(),
{
    if a.len() > 0 {
        lemma_bytes_lt_irreflexive(a.drop_first());
    }
}

/// The order of byte strings is transitive.
pub proof fn lemma_bytes_lt_transitive(a: Seq<u8>, b: Seq<u8>, c: Seq<u8>)
    requires
        bytes_lt(a, b),
        bytes_lt(b, c),
    ensures
        bytes_lt(a, c),
    decreases a.len(),
{
    if a.len() > 0 && a[0] == b[0] && b[0] == c[0] {
        lemma_bytes_lt_transitive(a.drop_first(), b.drop_first(), c.drop_first());
    }
}

/// The hash of the text of a source file: its SHA-256 digest, by which the environment finds
/// the file and orders the files.
pub struct FileHash {
    digest: Vec<u8>,
}

impl View for FileHash {
    type V = Seq<u8>;

    closed spec fn view(&self) -> Seq<u8> {
        self.digest@
    }
}

impl FileHash {
    /// The hash of `text`.
    pub fn new(text: &str) -> (r: FileHash)
        ensures
            r@ == sha256_digest(text@),
            r@.len() == 32,
    {
        FileHash { digest: sha256(text) }
    }

    /// The hash of 32 zero bytes, which is no text's.
    pub fn empty() -> (r: FileHash)
        ensures
            r@ == Seq::new(32, |i: int| 0u8),
    {
        let mut digest: Vec<u8> = Vec::new();
        let mut i: usize = 0;
        while i < 32
            invariant
                i <= 32,
                digest@ == Seq::new(i as nat, |k: int| 0u8),
            decreases 32 - i,
        {
            digest.push(0u8);
            i = i + 1;
            proof {
                assert(digest@ =~= Seq::new(i as nat, |k: int| 0u8));
            }
        }
        FileHash { digest }
    }

    /// A copy of this hash.
    pub fn duplicate(&self) -> (r: FileHash)
        ensures
            r@ == self@,
    {
        FileHash { digest: self.digest.clone() }
    }

    /// Whether two hashes are the same.
    pub fn same(&self, other: &FileHash) -> (r: bool)
        ensures
            r == (self@ == other@),
    {
        let n = self.digest.len();
        if n != other.digest.len() {
            return false;
        }
        let mut i: usize = 0;
        while i < n
            invariant
                n == self@.len(),
                n == other@.len(),
                i <= n,
                forall|j: int| 0 <= j < i ==> self@[j] == other@[j],
            decreases n - i,
        {
            if self.digest[i] != other.digest[i] {
                return false;
            }
            i = i + 1;
        }
        proof {
            assert(self@ =~= other@);
        }
        true
    }

    /// Whether this hash comes before `other` in the order of their bytes.
    pub fn before(&self, other: &FileHash) -> (r: bool)
        ensures
            r == bytes_lt(self@, other@),
    {
        let n = self.digest.len();
        let m = other.digest.len();
        let mut i: usize = 0;
        proof {
            assert(self@.skip(0) =~= self@);
            assert(other@.skip(0) =~= other@);
        }
        while i < n && i < m
            invariant
                n == self@.len(),
                m == other@.len(),
                i <= n,
                i <= m,
                bytes_lt(self@, other@) == bytes_lt(self@.skip(i as int), other@.skip(i as int)),
            decreases n - i,
        {
            if self.digest[i] != other.digest[i] {
                return self.digest[i] < other.digest[i];
            }
            proof {
                assert(self@.skip(i as int).drop_first() =~= self@.skip(i + 1));
                assert(other@.skip(i as int).drop_first() =~= other@.skip(i + 1));
            }
            i = i + 1;
        }
        i < m && i == n
    }
}

/// A location in the form of the Move IR: the hash of its file and a span of it.
pub struct MoveIrLoc {
    file_hash: FileHash,
    start: u32,
    end: u32,
}

impl MoveIrLoc {
    /// The location from `start` to `end` in the file of hash `file_hash`.
    pub fn new(file_hash: FileHash, start: u32, end: u32) -> (r: MoveIrLoc)
        ensures
            r.spec_hash() == file_hash@,
            r.spec_start() == start,
            r.spec_end() == end,
    {
        MoveIrLoc { file_hash, start, end }
    }

    /// The hash of the file of this location.
    pub closed spec fn spec_hash(&self) -> Seq<u8> {
        self.file_hash@
    }

    /// The start of this location.
    pub closed spec fn spec_start(&self) -> u32 {
        self.start
    }

    /// The end of this location.
    pub closed spec fn spec_end(&self) -> u32 {
        self.end
    }

    /// The hash of the file of this location.
    pub fn file_hash(&self) -> (r: &FileHash)
        ensures
            r@ == self.spec_hash(),
    {
        &self.file_hash
    }

    /// The start of this location.
    pub fn start(&self) -> (r: u32)
        ensures
            r == self.spec_start(),
    {
        self.start
    }

    /// The end of this location.
    pub fn end(&self) -> (r: u32)
        ensures
            r == self.spec_end(),
    {
        self.end
    }
}

/// A source file of the environment.
pub struct SourceFile {
    /// The name of the file.
    pub name: String,
    /// The text of the file.
    pub source: String,
    /// The hash of the file.
    pub hash: FileHash,
    /// The address aliases that the package of the file declares: names and addresses.
    pub aliases: Vec<(Symbol, Address)>,
    /// Whether the file belongs to a dependency rather than to a target of the compilation.
    pub is_dep: bool,
}

/// The names that the aliases `aliases` declare.
pub open spec fn alias_keys(aliases: Seq<(Symbol, Address)>) -> Seq<Symbol> {
    aliases.map_values(|a: (Symbol, Address)| a.0)
}

/// The alias at position `k` of `aliases` names `name`, a string of `pool`.
pub open spec fn alias_names(
    aliases: Seq<(Symbol, Address)>,
    pool: Seq<Seq<char>>,
    k: int,
    name: Seq<char>,
) -> bool {
    &&& 0 <= k < aliases.len()
    &&& aliases[k].0@ < pool.len()
    &&& pool[aliases[k].0@ as int] == name
}

/// The address that the aliases `aliases`, whose names are symbols of `pool`, give `name`,
/// if any.
pub open spec fn alias_named(aliases: Seq<(Symbol, Address)>, pool: Seq<Seq<char>>, name: Seq<char>) -> Option<
    nat,
> {
    if exists|k: int| #[trigger] alias_names(aliases, pool, k, name) {
        Some(aliases[choose|k: int| #[trigger] alias_names(aliases, pool, k, name)].1@)
    } else {
        None
    }
}

/// The address of a standard alias after a package that declares `alias` (if any): that
/// one, else the one defined before.
pub open spec fn resolved_alias(def: Option<nat>, alias: Option<nat>) -> Option<nat> {
    match alias {
        Some(a) => Some(a),
        None => def,
    }
}

/// The view of an optional address.
pub open spec fn address_view(a: Option<Address>) -> Option<nat> {
    match a {
        Some(x) => Some(x@),
        None => None,
    }
}

/// The message of the error on a standard alias `name` that a package defines as `addr`
/// where another defined it as `def`. The addresses are written in decimal.
pub open spec fn ambiguous_alias_message(name: Seq<char>, addr: nat, def: nat) -> Seq<char> {
    "Ambiguous definition of standard address alias `"@ + name + "` (`0x"@ + decimal(addr)
        + " != 0x"@ + decimal(def) + "`).This alias currently must be unique across all packages."@
}

/// The diagnostics `ds` after a package that declares `alias` for the standard alias `name`
/// defined before as `def`: with an error at `loc` where the two differ.
pub open spec fn alias_diags(
    ds: Seq<(crate::diag::DiagnosticView, bool)>,
    loc: LocView,
    name: Seq<char>,
    def: Option<nat>,
    alias: Option<nat>,
) -> Seq<(crate::diag::DiagnosticView, bool)> {
    match (alias, def) {
        (Some(a), Some(d)) => if a != d {
            with_diag(
                ds,
                located_diag(
                    Severity::Error,
                    loc,
                    ambiguous_alias_message(name, a, d),
                    Seq::empty(),
                    Seq::empty(),
                ),
            )
        } else {
            ds
        },
        _ => ds,
    }
}

/// The file at position `i` of `files` is the last one with its hash: the one that the
/// environment finds by that hash.
pub open spec fn is_hash_entry(files: Seq<SourceFile>, i: int) -> bool {
    &&& 0 <= i < files.len()
    &&& forall|j: int| i < j < files.len() ==> (#[trigger] files[j]).hash@ != files[i].hash@
}

/// The position of the last file of `files` with the hash `h`, if any.
pub open spec fn file_with_hash(files: Seq<SourceFile>, h: Seq<u8>) -> Option<int> {
    if exists|i: int| 0 <= i < files.len() && (#[trigger] files[i]).hash@ == h {
        Some(choose|i: int| is_hash_entry(files, i) && (#[trigger] files[i]).hash@ == h)
    } else {
        None
    }
}

/// The positions below `k` of the files of `files` that are the last with their hash, in
/// increasing order.
pub open spec fn hash_entries(files: Seq<SourceFile>, k: int) -> Seq<int>
    decreases k,
{
    if k <= 0 {
        Seq::empty()
    } else {
        let rest = hash_entries(files, k - 1);
        if is_hash_entry(files, k - 1) {
            rest.push(k - 1)
        } else {
            rest
        }
    }
}

/// The name is one of the pseudo files of the unknown and internal locations.
pub open spec fn is_pseudo_file_name(name: Seq<char>) -> bool {
    name == "<internal>"@ || name == "<unknown>"@
}

/// The positions below `k` of the files of `files` that are the last with their hash and
/// are not pseudo files, in increasing order.
pub open spec fn source_file_positions(files: Seq<SourceFile>, k: int) -> Seq<int>
    decreases k,
{
    if k <= 0 {
        Seq::empty()
    } else {
        let rest = source_file_positions(files, k - 1);
        if is_hash_entry(files, k - 1) && !is_pseudo_file_name(files[k - 1].name@) {
            rest.push(k - 1)
        } else {
            rest
        }
    }
}

/// Whether `name` is that of one of the pseudo files of the unknown and internal locations.
fn is_pseudo_name(name: &String) -> (r: bool)
    ensures
        r == is_pseudo_file_name(name@),
{
    *name == String::from_str("<internal>") || *name == String::from_str("<unknown>")
}

/// The position of the alias named `sym` in `aliases`, if any.
fn find_alias(aliases: &Vec<(Symbol, Address)>, sym: Symbol) -> (r: Option<usize>)
    ensures
        r matches Some(k) ==> k < aliases@.len() && aliases@[k as int].0 == sym,
        r is None ==> forall|k: int| 0 <= k < aliases@.len() ==> (#[trigger] aliases@[k]).0 != sym,
{
    let n = aliases.len();
    let mut k: usize = 0;
    while k < n
        invariant
            n == aliases@.len(),
            k <= n,
            forall|j: int| 0 <= j < k ==> (#[trigger] aliases@[j]).0 != sym,
        decreases n - k,
    {
        if aliases[k].0 == sym {
            return Some(k);
        }
        k = k + 1;
    }
    None
}

/// Where `sym` is the only symbol of `pool` for `name`, the aliases that name `name` are
/// those named `sym`, so the address that the aliases give `name` is that of the alias named
/// `sym`, the only one where the names of the aliases are distinct.
proof fn lemma_alias_named(
    aliases: Seq<(Symbol, Address)>,
    pool: Seq<Seq<char>>,
    name: Seq<char>,
    sym: Symbol,
)
    requires
        sym@ < pool.len(),
        pool[sym@ as int] == name,
        forall|j: int| 0 <= j < pool.len() && #[trigger] pool[j] == name ==> j == sym@,
        alias_keys(aliases).no_duplicates(),
    ensures
        forall|k: int|
            0 <= k < aliases.len() ==> (#[trigger] alias_names(aliases, pool, k, name)
                <==> aliases[k].0 == sym),
        forall|k: int|
            0 <= k < aliases.len() && #[trigger] aliases[k].0 == sym ==> alias_named(aliases, pool, name)
                == Some(aliases[k].1@),
        (forall|k: int| 0 <= k < aliases.len() ==> (#[trigger] aliases[k]).0 != sym) ==> alias_named(
            aliases,
            pool,
            name,
        ) is None,
{
    assert forall|k: int| 0 <= k < aliases.len() implies (#[trigger] alias_names(aliases, pool, k, name)
        <==> aliases[k].0 == sym) by {
        if alias_names(aliases, pool, k, name) {
            Symbol::lemma_view_injective(aliases[k].0, sym);
        }
    }
    assert forall|k: int| 0 <= k < aliases.len() && #[trigger] aliases[k].0 == sym implies alias_named(
        aliases,
        pool,
        name,
    ) == Some(aliases[k].1@) by {
        assert(alias_names(aliases, pool, k, name));
        let c = choose|c: int| #[trigger] alias_names(aliases, pool, c, name);
        assert(aliases[c].0 == sym);
        if c != k {
            assert(alias_keys(aliases)[c] == alias_keys(aliases)[k]);
        }
    }
    if forall|k: int| 0 <= k < aliases.len() ==> (#[trigger] aliases[k]).0 != sym {
        assert forall|k: int| !#[trigger] alias_names(aliases, pool, k, name) by {
            if 0 <= k < aliases.len() {
                assert(aliases[k].0 != sym);
            }
        }
    }
}

impl GlobalEnv {
    /// The file `f` belongs to a dependency.
    pub open spec fn is_dep_file(&self, f: nat) -> bool {
        f < self.files@.len() && self.files@[f as int].is_dep
    }

    /// The module `m` is a target of the compilation: its file does not belong to a
    /// dependency.
    pub open spec fn is_target_data(&self, m: ModuleData) -> bool {
        !self.is_dep_file(m.loc@.file)
    }

    /// Whether the file `file_id` belongs to a dependency.
    pub fn file_is_dep(&self, file_id: FileId) -> (r: bool)
        ensures
            r == self.is_dep_file(file_id@),
    {
        let i = file_id.index();
        if (i as usize) < self.files.len() {
            self.files[i as usize].is_dep
        } else {
            false
        }
    }

    /// Resolves the standard alias `name`, defined before as `def`, after a package that
    /// declares `aliases`: the address that the package gives it, else `def`. Where the two
    /// differ, an error is added at the unknown location. The name is added to the symbol
    /// pool.
    fn resolve_std_address_alias(
        &mut self,
        def: Option<Address>,
        name: &str,
        aliases: &Vec<(Symbol, Address)>,
    ) -> (r: Option<Address>)
        requires
            alias_keys(aliases@).no_duplicates(),
        ensures
            exists|sym: Symbol| made(old(self).symbol_pool@, name@, final(self).symbol_pool@, sym),
            address_view(r) == resolved_alias(
                address_view(def),
                alias_named(aliases@, final(self).symbol_pool@, name@),
            ),
            final(self).diags_view() == alias_diags(
                old(self).diags_view(),
                old(self).unknown_loc@,
                name@,
                address_view(def),
                alias_named(aliases@, final(self).symbol_pool@, name@),
            ),
            final(self).same_declarations(&*old(self)),
            final(self).next_free_node_id == old(self).next_free_node_id,
            final(self).global_id_counter == old(self).global_id_counter,
            final(self).exp_info == old(self).exp_info,
    {
        let name_sym = self.symbol_pool.make(name);
        let ghost pool = self.symbol_pool@;
        proof {
            lemma_alias_named(aliases@, pool, name@, name_sym);
        }
        match find_alias(aliases, name_sym) {
            Some(k) => {
                let addr = aliases[k].1.duplicate();
                match &def {
                    Some(other) => {
                        if !addr.same(other) {
                            let msg = String::from_str("Ambiguous definition of standard address alias `")
                                .concat(name)
                                .concat("` (`0x")
                                .concat(addr.to_decimal_string().as_str())
                                .concat(" != 0x")
                                .concat(other.to_decimal_string().as_str())
                                .concat("`).This alias currently must be unique across all packages.");
                            let loc = self.unknown_loc.duplicate();
                            self.error(&loc, msg.as_str());
                            proof {
                                assert(msg@ == ambiguous_alias_message(name@, addr@, other@));
                            }
                        }
                    },
                    None => {},
                }
                Some(addr)
            },
            None => def,
        }
    }

    /// Adds a source file and returns its file id, the number of files before. The addresses
    /// of the standard library (alias `std`) and of the extension libraries (alias
    /// `Extensions`) become those that the aliases of the file give them, where they give
    /// them; where one differs from the address defined before, an error is added at the
    /// unknown location. The two names are added to the symbol pool.
    pub fn add_source(
        &mut self,
        file_hash: FileHash,
        address_aliases: Vec<(Symbol, Address)>,
        file_name: &str,
        source: &str,
        is_dep: bool,
    ) -> (r: FileId)
        requires
            old(self).wf(),
            old(self).files@.len() < 0x10000,
            alias_keys(address_aliases@).no_duplicates(),
        ensures
            final(self).wf(),
            r@ == old(self).files@.len(),
            final(self).files@.len() == old(self).files@.len() + 1,
            final(self).files@.take(old(self).files@.len() as int) == old(self).files@,
            final(self).files@.last().name@ == file_name@,
            final(self).files@.last().source@ == source@,
            final(self).files@.last().hash@ == file_hash@,
            final(self).files@.last().aliases@ == address_aliases@,
            final(self).files@.last().is_dep == is_dep,
            address_view(final(self).stdlib_address) == resolved_alias(
                address_view(old(self).stdlib_address),
                alias_named(address_aliases@, final(self).symbol_pool@, "std"@),
            ),
            address_view(final(self).extlib_address) == resolved_alias(
                address_view(old(self).extlib_address),
                alias_named(address_aliases@, final(self).symbol_pool@, "Extensions"@),
            ),
            final(self).diags_view() == alias_diags(
                alias_diags(
                    old(self).diags_view(),
                    old(self).unknown_loc@,
                    "std"@,
                    address_view(old(self).stdlib_address),
                    alias_named(address_aliases@, final(self).symbol_pool@, "std"@),
                ),
                old(self).unknown_loc@,
                "Extensions"@,
                address_view(old(self).extlib_address),
                alias_named(address_aliases@, final(self).symbol_pool@, "Extensions"@),
            ),
            exists|p: Seq<Seq<char>>, s1: Symbol, s2: Symbol|
                made(old(self).symbol_pool@, "std"@, p, s1) && made(
                    p,
                    "Extensions"@,
                    final(self).symbol_pool@,
                    s2,
                ),
            final(self).module_data == old(self).module_data,
            final(self).function_data == old(self).function_data,
            final(self).struct_data == old(self).struct_data,
            final(self).enum_data == old(self).enum_data,
            final(self).named_constants == old(self).named_constants,
            final(self).unknown_loc == old(self).unknown_loc,
            final(self).internal_loc == old(self).internal_loc,
            final(self).next_free_node_id == old(self).next_free_node_id,
            final(self).global_id_counter == old(self).global_id_counter,
            final(self).exp_info == old(self).exp_info,
    {
        let file_id = FileId::new(self.files.len() as u32);
        let ghost e0 = *self;
        let std_def = match &self.stdlib_address {
            Some(a) => Some(a.duplicate()),
            None => None,
        };
        let std = self.resolve_std_address_alias(std_def, "std", &address_aliases);
        self.stdlib_address = std;
        let ghost e1 = *self;
        let ext_def = match &self.extlib_address {
            Some(a) => Some(a.duplicate()),
            None => None,
        };
        let ext = self.resolve_std_address_alias(ext_def, "Extensions", &address_aliases);
        self.extlib_address = ext;
        let ghost e2 = *self;
        proof {
            reveal_strlit("std");
            reveal_strlit("Extensions");
            let s1 = choose|sym: Symbol| made(e0.symbol_pool@, "std"@, e1.symbol_pool@, sym);
            let s2 = choose|sym: Symbol| made(e1.symbol_pool@, "Extensions"@, e2.symbol_pool@, sym);
            assert(forall|j: int|
                0 <= j < e2.symbol_pool@.len() && #[trigger] e2.symbol_pool@[j] == "std"@ ==> j == s1@) by {
                assert forall|j: int|
                    0 <= j < e2.symbol_pool@.len() && #[trigger] e2.symbol_pool@[j] == "std"@ implies j
                    == s1@ by {
                    if j >= e1.symbol_pool@.len() {
                        assert(e2.symbol_pool@[j] == "Extensions"@);
                        assert("Extensions"@.len() != "std"@.len());
                    }
                    assert(e1.symbol_pool@[j] == "std"@);
                }
            }
            lemma_alias_named(address_aliases@, e1.symbol_pool@, "std"@, s1);
            lemma_alias_named(address_aliases@, e2.symbol_pool@, "std"@, s1);
            if exists|k: int| 0 <= k < address_aliases@.len() && #[trigger] address_aliases@[k].0 == s1 {
                let k = choose|k: int|
                    0 <= k < address_aliases@.len() && #[trigger] address_aliases@[k].0 == s1;
                assert(alias_named(address_aliases@, e1.symbol_pool@, "std"@) == Some(
                    address_aliases@[k].1@,
                ));
            }
            assert(alias_named(address_aliases@, e2.symbol_pool@, "std"@) == alias_named(
                address_aliases@,
                e1.symbol_pool@,
                "std"@,
            ));
        }
        self.files.push(
            SourceFile {
                name: String::from_str(file_name),
                source: String::from_str(source),
                hash: file_hash,
                aliases: address_aliases,
                is_dep,
            },
        );
        proof {
            assert(self.files@.take(e0.files@.len() as int) =~= e0.files@);
        }
        file_id
    }
}

impl GlobalEnv {
    /// The position of the last file with the hash `h`, if any.
    fn find_file_by_hash(&self, h: &FileHash) -> (r: Option<usize>)
        ensures
            r matches Some(i) ==> i < self.files@.len() && self.files@[i as int].hash@ == h@
                && is_hash_entry(self.files@, i as int),
            r is None ==> forall|i: int|
                0 <= i < self.files@.len() ==> (#[trigger] self.files@[i]).hash@ != h@,
    {
        let mut i: usize = self.files.len();
        while i > 0
            invariant
                i <= self.files@.len(),
                forall|j: int| i <= j < self.files@.len() ==> (#[trigger] self.files@[j]).hash@ != h@,
            decreases i,
        {
            if self.files[i - 1].hash.same(h) {
                return Some(i - 1);
            }
            i = i - 1;
        }
        None
    }

    /// The file id of the last file added with the hash `fhash`, if any.
    pub fn get_file_id(&self, fhash: &FileHash) -> (r: Option<FileId>)
        requires
            self.wf(),
        ensures
            match file_with_hash(self.files@, fhash@) {
                Some(i) => r matches Some(f) && f@ == i,
                None => r is None,
            },
    {
        match self.find_file_by_hash(fhash) {
            Some(i) => {
                proof {
                    let c = choose|c: int| is_hash_entry(self.files@, c) && (#[trigger] self.files@[c]).hash@ == fhash@;
                    if c < i {
                        assert(self.files@[i as int].hash@ != self.files@[c].hash@);
                    }
                    if i < c {
                        assert(self.files@[c].hash@ != self.files@[i as int].hash@);
                    }
                }
                Some(FileId::new(i as u32))
            },
            None => None,
        }
    }

    /// Maps a file id to an index, which `file_idx_to_id` maps back: its position among the
    /// files. The file id must be that of a file of the environment.
    pub fn file_id_to_idx(&self, file_id: FileId) -> (r: u16)
        requires
            self.wf(),
            file_id@ < self.files@.len(),
        ensures
            r == file_id@,
    {
        file_id.index() as u16
    }

    /// Maps an index that `file_id_to_idx` gave back to its file id. The index must be that
    /// of a file of the environment.
    pub fn file_idx_to_id(&self, file_idx: u16) -> (r: FileId)
        requires
            file_idx < self.files@.len(),
        ensures
            r@ == file_idx,
    {
        FileId::new(file_idx as u32)
    }

    /// The location that `to_loc` gives for the Move IR location `loc`: the same span in the
    /// last file added with its hash, or the unknown location where there is none.
    pub open spec fn to_loc_view(&self, loc: MoveIrLoc) -> LocView {
        match file_with_hash(self.files@, loc.spec_hash()) {
            Some(i) => LocView { file: i as nat, start: loc.spec_start() as nat, end: loc.spec_end() as nat },
            None => self.unknown_loc@,
        }
    }

    /// Returns the Move IR form of the unknown location: the span of the unknown location in
    /// the file with the hash of the text `<unknown>`, the hash of the file of the unknown
    /// location, so that `to_loc` maps it back to the unknown location where that file is the
    /// one found by that hash.
    pub fn unknown_move_ir_loc(&self) -> (r: MoveIrLoc)
        ensures
            r.spec_hash() == sha256_digest("<unknown>"@),
            r.spec_start() == self.unknown_loc@.start,
            r.spec_end() == self.unknown_loc@.end,
            file_with_hash(self.files@, sha256_digest("<unknown>"@)) == Some(
                self.unknown_loc@.file as int,
            )
                ==> self.to_loc_view(r) == self.unknown_loc@,
    {
        let span = self.unknown_loc.span();
        MoveIrLoc::new(FileHash::new("<unknown>"), span.start(), span.end())
    }

    /// Converts a location of the Move IR to a location of the environment: the same span in
    /// the last file added with its hash, or the unknown location where there is none. The
    /// span must not end before it starts.
    pub fn to_loc(&self, loc: &MoveIrLoc) -> (r: Loc)
        requires
            self.wf(),
            loc.spec_start() <= loc.spec_end(),
        ensures
            r@ == self.to_loc_view(*loc),
    {
        match self.get_file_id(loc.file_hash()) {
            Some(file_id) => Loc::new(file_id, Span::new(loc.start(), loc.end())),
            None => self.unknown_loc(),
        }
    }

    /// Returns the name of the file `file_id`, which must be a file of the environment.
    pub fn get_file(&self, file_id: FileId) -> (r: &str)
        requires
            file_id@ < self.files@.len(),
        ensures
            r@ == self.files@[file_id@ as int].name@,
    {
        self.files[file_id.index() as usize].name.as_str()
    }

    /// Whether the file at position `i` is the last with its hash.
    fn is_last_with_hash(&self, i: usize) -> (r: bool)
        requires
            i < self.files@.len(),
        ensures
            r == is_hash_entry(self.files@, i as int),
    {
        let n = self.files.len();
        let mut j: usize = i + 1;
        while j < n
            invariant
                n == self.files@.len(),
                i < j <= n,
                forall|k: int| i < k < j ==> (#[trigger] self.files@[k]).hash@ != self.files@[i as int].hash@,
            decreases n - j,
        {
            if self.files[j].hash.same(&self.files[i].hash) {
                return false;
            }
            j = j + 1;
        }
        true
    }

    /// Gets the number of source files: the files with distinct hashes, the pseudo files of
    /// the unknown and internal locations among them.
    pub fn get_file_count(&self) -> (r: usize)
        ensures
            r == hash_entries(self.files@, self.files@.len() as int).len(),
    {
        let n = self.files.len();
        let mut count: usize = 0;
        let mut i: usize = 0;
        while i < n
            invariant
                n == self.files@.len(),
                i <= n,
                count == hash_entries(self.files@, i as int).len(),
                count <= i,
            decreases n - i,
        {
            if self.is_last_with_hash(i) {
                count = count + 1;
            }
            i = i + 1;
        }
        count
    }

    /// The names of the source files: of the last file added with each hash, but for the
    /// pseudo files of the unknown and internal locations.
    pub open spec fn source_file_names(&self) -> Seq<Seq<char>> {
        source_file_positions(self.files@, self.files@.len() as int).map_values(
            |i: int| self.files@[i].name@,
        )
    }

    /// `ps` are the positions of the source files, each once, in the order of their hashes:
    /// the last file added with each hash, but for the pseudo files of the unknown and
    /// internal locations.
    pub open spec fn in_hash_order(&self, ps: Seq<int>) -> bool {
        &&& ps.to_set() == source_file_positions(self.files@, self.files@.len() as int).to_set()
        &&& forall|i: int, j: int|
            #![trigger ps[i], ps[j]]
            0 <= i < j < ps.len() ==> bytes_lt(self.files@[ps[i]].hash@, self.files@[ps[j]].hash@)
    }

    /// The positions of the source files in increasing order, as a vector.
    fn source_positions(&self) -> (r: Vec<usize>)
        ensures
            r@.len() == source_file_positions(self.files@, self.files@.len() as int).len(),
            forall|k: int|
                0 <= k < r@.len() ==> (#[trigger] r@[k]) as int == source_file_positions(
                    self.files@,
                    self.files@.len() as int,
                )[k],
    {
        let n = self.files.len();
        let mut r: Vec<usize> = Vec::new();
        let mut i: usize = 0;
        while i < n
            invariant
                n == self.files@.len(),
                i <= n,
                r@.len() == source_file_positions(self.files@, i as int).len(),
                forall|k: int|
                    0 <= k < r@.len() ==> (#[trigger] r@[k]) as int == source_file_positions(
                        self.files@,
                        i as int,
                    )[k],
            decreases n - i,
        {
            if self.is_last_with_hash(i) && !is_pseudo_name(&self.files[i].name) {
                r.push(i);
            }
            i = i + 1;
        }
        r
    }

    /// The positions of the source files, each once, in the order of their hashes.
    fn source_positions_in_hash_order(&self) -> (r: Vec<usize>)
        ensures
            self.in_hash_order(r@.map_values(|p: usize| p as int)),
            forall|k: int| 0 <= k < r@.len() ==> (#[trigger] r@[k]) < self.files@.len(),
    {
        let ps = self.source_positions();
        let ghost sp = source_file_positions(self.files@, self.files@.len() as int);
        proof {
            lemma_source_file_positions(self.files@, self.files@.len() as int);
        }
        let n = ps.len();
        let mut r: Vec<usize> = Vec::new();
        let mut i: usize = 0;
        while i < n
            invariant
                n == ps@.len(),
                n == sp.len(),
                i <= n,
                sp == source_file_positions(self.files@, self.files@.len() as int),
                forall|k: int| 0 <= k < n ==> (#[trigger] ps@[k]) as int == sp[k],
                forall|x: int|
                    #[trigger] sp.contains(x) ==> 0 <= x < self.files@.len() && is_hash_entry(
                        self.files@,
                        x,
                    ),
                forall|k: int| 0 <= k < r@.len() ==> (#[trigger] r@[k]) < self.files@.len(),
                forall|k: int|
                    0 <= k < r@.len() ==> is_hash_entry(self.files@, (#[trigger] r@[k]) as int),
                forall|x: usize| r@.contains(x) <==> ps@.take(i as int).contains(x),
                forall|a: int, b: int|
                    #![trigger r@[a], r@[b]]
                    0 <= a < b < r@.len() ==> bytes_lt(
                        self.files@[r@[a] as int].hash@,
                        self.files@[r@[b] as int].hash@,
                    ),
            decreases n - i,
        {
            let x = ps[i];
            proof {
                assert(sp.contains(x as int)) by {
                    assert(sp[i as int] == x as int);
                }
            }
            let mut p: usize = 0;
            while p < r.len() && self.files[r[p]].hash.before(&self.files[x].hash)
                invariant
                    p <= r@.len(),
                    x < self.files@.len(),
                    forall|k: int| 0 <= k < r@.len() ==> (#[trigger] r@[k]) < self.files@.len(),
                    forall|k: int|
                        0 <= k < p ==> bytes_lt(
                            self.files@[(#[trigger] r@[k]) as int].hash@,
                            self.files@[x as int].hash@,
                        ),
                decreases r@.len() - p,
            {
                p = p + 1;
            }
            let ghost old_r = r@;
            proof {
                assert(ps@.take(i + 1) =~= ps@.take(i as int).push(x));
                assert(!old_r.contains(x)) by {
                    if old_r.contains(x) {
                        let k = choose|k: int| 0 <= k < i && ps@.take(i as int)[k] == x;
                        assert(ps@[k] == x);
                        lemma_source_file_positions_increasing(
                            self.files@,
                            self.files@.len() as int,
                            k,
                            i as int,
                        );
                    }
                }
                if p < old_r.len() {
                    let h = self.files@[x as int].hash@;
                    let g = self.files@[old_r[p as int] as int].hash@;
                    lemma_bytes_lt_total(g, h);
                    let q = old_r[p as int] as int;
                    if q < x {
                        assert(self.files@[x as int].hash@ != self.files@[q].hash@);
                    } else if x < q {
                        assert(is_hash_entry(self.files@, x as int));
                        assert(self.files@[q].hash@ != self.files@[x as int].hash@);
                    }
                }
            }
            r.insert(p, x);
            proof {
                old_r.insert_ensures(p as int, x);
                let hx = self.files@[x as int].hash@;
                assert forall|a: int, b: int|
                    #![trigger r@[a], r@[b]]
                    0 <= a < b < r@.len() implies bytes_lt(
                    self.files@[r@[a] as int].hash@,
                    self.files@[r@[b] as int].hash@,
                ) by {
                    if b < p {
                        assert(r@[a] == old_r[a] && r@[b] == old_r[b]);
                    } else if b == p {
                        assert(r@[a] == old_r[a]);
                    } else if a < p {
                        assert(r@[a] == old_r[a] && r@[b] == old_r[b - 1]);
                        if b - 1 > p {
                            assert(bytes_lt(
                                self.files@[old_r[p as int] as int].hash@,
                                self.files@[old_r[b - 1] as int].hash@,
                            ));
                            lemma_bytes_lt_transitive(
                                hx,
                                self.files@[old_r[p as int] as int].hash@,
                                self.files@[old_r[b - 1] as int].hash@,
                            );
                        }
                        lemma_bytes_lt_transitive(
                            self.files@[old_r[a] as int].hash@,
                            hx,
                            self.files@[old_r[b - 1] as int].hash@,
                        );
                    } else if a == p {
                        assert(r@[b] == old_r[b - 1]);
                        if b - 1 > p {
                            assert(bytes_lt(
                                self.files@[old_r[p as int] as int].hash@,
                                self.files@[old_r[b - 1] as int].hash@,
                            ));
                            lemma_bytes_lt_transitive(
                                hx,
                                self.files@[old_r[p as int] as int].hash@,
                                self.files@[old_r[b - 1] as int].hash@,
                            );
                        }
                    } else {
                        assert(r@[a] == old_r[a - 1] && r@[b] == old_r[b - 1]);
                    }
                }
                let t0 = ps@.take(i as int);
                let t1 = ps@.take(i + 1);
                assert forall|y: usize| r@.contains(y) <==> t1.contains(y) by {
                    if r@.contains(y) {
                        let k = choose|k: int| 0 <= k < r@.len() && r@[k] == y;
                        if k < p {
                            assert(old_r[k] == y);
                        } else if k > p {
                            assert(old_r[k - 1] == y);
                        }
                        if y != x {
                            assert(old_r.contains(y));
                            assert(t0.contains(y));
                            let m = choose|m: int| 0 <= m < i && t0[m] == y;
                            assert(t1[m] == y);
                        } else {
                            assert(t1[i as int] == y);
                        }
                    }
                    if t1.contains(y) {
                        let m = choose|m: int| 0 <= m < i + 1 && t1[m] == y;
                        if m < i {
                            assert(t0[m] == y);
                            assert(old_r.contains(y));
                            let k = choose|k: int| 0 <= k < old_r.len() && old_r[k] == y;
                            if k < p {
                                assert(r@[k] == y);
                            } else {
                                assert(r@[k + 1] == y);
                            }
                        } else {
                            assert(r@[p as int] == y);
                        }
                    }
                }
                assert forall|k: int| 0 <= k < r@.len() implies is_hash_entry(
                    self.files@,
                    (#[trigger] r@[k]) as int,
                ) by {
                    if k < p {
                        assert(r@[k] == old_r[k]);
                    } else if k > p {
                        assert(r@[k] == old_r[k - 1]);
                    }
                }
            }
            i = i + 1;
        }
        proof {
            let rs = r@.map_values(|p: usize| p as int);
            assert(ps@.take(n as int) =~= ps@);
            assert forall|y: int| rs.to_set().contains(y) <==> sp.to_set().contains(y) by {
                if rs.contains(y) {
                    let k = choose|k: int| 0 <= k < rs.len() && rs[k] == y;
                    assert(r@.contains(r@[k]));
                    let m = choose|m: int| 0 <= m < n && ps@[m] == r@[k];
                    assert(sp[m] == y);
                }
                if sp.contains(y) {
                    let m = choose|m: int| 0 <= m < sp.len() && sp[m] == y;
                    assert(ps@[m] as int == y);
                    assert(ps@.contains(ps@[m]));
                    assert(r@.contains(ps@[m]));
                    let k = choose|k: int| 0 <= k < r@.len() && r@[k] == ps@[m];
                    assert(rs[k] == y);
                }
            }
            assert(rs.to_set() =~= sp.to_set());
            assert forall|a: int, b: int|
                #![trigger rs[a], rs[b]]
                0 <= a < b < rs.len() implies bytes_lt(
                self.files@[rs[a]].hash@,
                self.files@[rs[b]].hash@,
            ) by {
                assert(rs[a] == r@[a] as int && rs[b] == r@[b] as int);
                assert(bytes_lt(self.files@[r@[a] as int].hash@, self.files@[r@[b] as int].hash@));
            }
        }
        r
    }

    /// Returns the names of the source files: of the last file added with each hash, but for
    /// the pseudo files of the unknown and internal locations, each once, in the order of
    /// their hashes. There is one such order (`lemma_hash_order_unique`).
    pub fn get_source_file_names(&self) -> (r: Vec<String>)
        ensures
            exists|ps: Seq<int>|
                self.in_hash_order(ps) && r@.map_values(|s: String| s@) == ps.map_values(
                    |i: int| self.files@[i].name@,
                ),
    {
        let ps = self.source_positions_in_hash_order();
        let n = ps.len();
        let mut r: Vec<String> = Vec::new();
        let mut i: usize = 0;
        while i < n
            invariant
                n == ps@.len(),
                i <= n,
                forall|k: int| 0 <= k < n ==> (#[trigger] ps@[k]) < self.files@.len(),
                r@.len() == i,
                forall|k: int| 0 <= k < i ==> (#[trigger] r@[k])@ == self.files@[ps@[k] as int].name@,
            decreases n - i,
        {
            r.push(self.files[ps[i]].name.clone());
            i = i + 1;
        }
        proof {
            let qs = ps@.map_values(|p: usize| p as int);
            assert(r@.map_values(|s: String| s@) =~= qs.map_values(|k: int| self.files@[k].name@));
        }
        r
    }

    /// Returns the ids of the source files: of the last file added with each hash, but for
    /// the pseudo files of the unknown and internal locations, each once, in the order of
    /// their hashes.
    pub fn get_source_file_ids(&self) -> (r: Vec<FileId>)
        requires
            self.wf(),
        ensures
            self.in_hash_order(r@.map_values(|f: FileId| f@ as int)),
    {
        let ps = self.source_positions_in_hash_order();
        let n = ps.len();
        let mut r: Vec<FileId> = Vec::new();
        let mut i: usize = 0;
        while i < n
            invariant
                n == ps@.len(),
                i <= n,
                self.files@.len() <= u32::MAX,
                forall|k: int| 0 <= k < n ==> (#[trigger] ps@[k]) < self.files@.len(),
                r@.len() == i,
                forall|k: int| 0 <= k < i ==> (#[trigger] r@[k])@ == ps@[k],
            decreases n - i,
        {
            r.push(FileId::new(ps[i] as u32));
            i = i + 1;
        }
        proof {
            assert(r@.map_values(|f: FileId| f@ as int) =~= ps@.map_values(|p: usize| p as int));
        }
        r
    }
}

/// The source positions below `k` are hash entries below `k`, not pseudo files.
proof fn lemma_source_file_positions(files: Seq<SourceFile>, k: int)
    ensures
        forall|x: int|
            #[trigger] source_file_positions(files, k).contains(x) ==> 0 <= x < k && x < files.len()
                && is_hash_entry(files, x) && !is_pseudo_file_name(files[x].name@),
    decreases k,
{
    if k > 0 {
        lemma_source_file_positions(files, k - 1);
        let rest = source_file_positions(files, k - 1);
        assert forall|x: int| #[trigger] source_file_positions(files, k).contains(x) implies 0 <= x
            < k && x < files.len() && is_hash_entry(files, x) && !is_pseudo_file_name(
            files[x].name@,
        ) by {
            if is_hash_entry(files, k - 1) && !is_pseudo_file_name(files[k - 1].name@) {
                lemma_contains_push_int(rest, k - 1, x);
            }
        }
    }
}

/// The source positions are in strictly increasing order.
proof fn lemma_source_file_positions_increasing(files: Seq<SourceFile>, k: int, a: int, b: int)
    requires
        0 <= a < b < source_file_positions(files, k).len(),
    ensures
        source_file_positions(files, k)[a] < source_file_positions(files, k)[b],
    decreases k,
{
    if k > 0 {
        let rest = source_file_positions(files, k - 1);
        lemma_source_file_positions(files, k - 1);
        if is_hash_entry(files, k - 1) && !is_pseudo_file_name(files[k - 1].name@) {
            if b < rest.len() {
                lemma_source_file_positions_increasing(files, k - 1, a, b);
            } else {
                assert(rest.contains(rest[a]));
            }
        } else {
            lemma_source_file_positions_increasing(files, k - 1, a, b);
        }
    }
}

/// An element is in a sequence with one more element when it is that element or was there.
proof fn lemma_contains_push_int(s: Seq<int>, x: int, y: int)
    ensures
        s.push(x).contains(y) <==> (s.contains(y) || x == y),
{
    if s.push(x).contains(y) {
        let k = choose|k: int| 0 <= k < s.push(x).len() && s.push(x)[k] == y;
        if k < s.len() {
            assert(s[k] == y);
        }
    }
    if s.contains(y) {
        let k = choose|k: int| 0 <= k < s.len() && s[k] == y;
        assert(s.push(x)[k] == y);
    }
    if x == y {
        assert(s.push(x)[s.len() as int] == y);
    }
}

/// The positions of the source files in the order of their hashes are unique: two sequences
/// in that order are the same.
pub proof fn lemma_hash_order_unique(env: GlobalEnv, a: Seq<int>, b: Seq<int>)
    requires
        env.in_hash_order(a),
        env.in_hash_order(b),
    ensures
        a == b,
{
    lemma_keys_order_unique(env.files@, a, b);
}

/// Two sequences of positions of `files`, each in strictly increasing order of the hashes of
/// their files, that hold the same positions are the same.
proof fn lemma_keys_order_unique(files: Seq<SourceFile>, a: Seq<int>, b: Seq<int>)
    requires
        forall|i: int, j: int|
            #![trigger a[i], a[j]]
            0 <= i < j < a.len() ==> bytes_lt(files[a[i]].hash@, files[a[j]].hash@),
        forall|i: int, j: int|
            #![trigger b[i], b[j]]
            0 <= i < j < b.len() ==> bytes_lt(files[b[i]].hash@, files[b[j]].hash@),
        a.to_set() == b.to_set(),
    ensures
        a == b,
    decreases a.len(),
{
    if a.len() == 0 {
        if b.len() > 0 {
            assert(b.to_set().contains(b[0]));
        }
    } else {
        if b.len() == 0 {
            assert(a.to_set().contains(a[0]));
        }
        let x = a[0];
        let y = b[0];
        assert(a.to_set().contains(x));
        assert(b.to_set().contains(y));
        let i = choose|i: int| 0 <= i < b.len() && b[i] == x;
        let j = choose|j: int| 0 <= j < a.len() && a[j] == y;
        if x != y {
            assert(bytes_lt(files[b[0]].hash@, files[b[i]].hash@));
            assert(bytes_lt(files[a[0]].hash@, files[a[j]].hash@));
            lemma_bytes_lt_total(files[x].hash@, files[y].hash@);
        }
        let a1 = a.drop_first();
        let b1 = b.drop_first();
        assert forall|z: int| a1.to_set().contains(z) <==> b1.to_set().contains(z) by {
            if a1.contains(z) {
                let p = choose|p: int| 0 <= p < a1.len() && a1[p] == z;
                assert(a[p + 1] == z);
                assert(bytes_lt(files[a[0]].hash@, files[a[p + 1]].hash@));
                lemma_bytes_lt_total(files[z].hash@, files[x].hash@);
                assert(a.to_set().contains(z));
                let q = choose|q: int| 0 <= q < b.len() && b[q] == z;
                assert(q != 0);
                assert(b1[q - 1] == z);
            }
            if b1.contains(z) {
                let p = choose|p: int| 0 <= p < b1.len() && b1[p] == z;
                assert(b[p + 1] == z);
                assert(bytes_lt(files[b[0]].hash@, files[b[p + 1]].hash@));
                lemma_bytes_lt_total(files[z].hash@, files[y].hash@);
                assert(b.to_set().contains(z));
                let q = choose|q: int| 0 <= q < a.len() && a[q] == z;
                assert(q != 0);
                assert(a1[q - 1] == z);
            }
        }
        assert(a1.to_set() =~= b1.to_set());
        assert forall|p: int, q: int|
            #![trigger a1[p], a1[q]]
            0 <= p < q < a1.len() implies bytes_lt(files[a1[p]].hash@, files[a1[q]].hash@) by {
            assert(a1[p] == a[p + 1] && a1[q] == a[q + 1]);
        }
        assert forall|p: int, q: int|
            #![trigger b1[p], b1[q]]
            0 <= p < q < b1.len() implies bytes_lt(files[b1[p]].hash@, files[b1[q]].hash@) by {
            assert(b1[p] == b[p + 1] && b1[q] == b[q + 1]);
        }
        lemma_keys_order_unique(files, a1, b1);
        assert(a =~= seq![x] + a1);
        assert(b =~= seq![y] + b1);
    }
}

/// A file just added is the one found by its hash, and the files found by the other hashes
/// stay the same.
pub proof fn lemma_added_file_found(files0: Seq<SourceFile>, files1: Seq<SourceFile>, h: Seq<u8>)
    requires
        files1.len() == files0.len() + 1,
        files1.take(files0.len() as int) == files0,
        files1.last().hash@ == h,
    ensures
        file_with_hash(files1, h) == Some(files0.len() as int),
        forall|g: Seq<u8>| g != h ==> #[trigger] file_with_hash(files1, g) == file_with_hash(files0, g),
{
    let n = files0.len() as int;
    assert forall|i: int| 0 <= i < n implies #[trigger] files1[i] == files0[i] by {
        assert(files1.take(n)[i] == files1[i]);
    }
    assert(is_hash_entry(files1, n));
    let c = choose|c: int| is_hash_entry(files1, c) && (#[trigger] files1[c]).hash@ == h;
    if c < n {
        assert(files1[n].hash@ != files1[c].hash@);
    }
    assert forall|g: Seq<u8>| g != h implies #[trigger] file_with_hash(files1, g) == file_with_hash(
        files0,
        g,
    ) by {
        lemma_other_hash_found(files0, files1, h, g);
    }
}

/// Adding a file with the hash `h` leaves the file found by another hash `g` as it was.
proof fn lemma_other_hash_found(files0: Seq<SourceFile>, files1: Seq<SourceFile>, h: Seq<u8>, g: Seq<u8>)
    requires
        files1.len() == files0.len() + 1,
        forall|i: int| 0 <= i < files0.len() ==> #[trigger] files1[i] == files0[i],
        files1.last().hash@ == h,
        g != h,
    ensures
        file_with_hash(files1, g) == file_with_hash(files0, g),
{
    let n = files0.len() as int;
    assert forall|i: int| 0 <= i < n && files0[i].hash@ == g implies is_hash_entry(files1, i)
        == is_hash_entry(files0, i) by {
        if is_hash_entry(files0, i) {
            assert forall|j: int| i < j < files1.len() implies (#[trigger] files1[j]).hash@
                != files1[i].hash@ by {
                if j < n {
                    assert(files0[j].hash@ != files0[i].hash@);
                }
            }
        }
        if is_hash_entry(files1, i) {
            assert forall|j: int| i < j < files0.len() implies (#[trigger] files0[j]).hash@
                != files0[i].hash@ by {
                assert(files1[j].hash@ != files1[i].hash@);
            }
        }
    }
    if exists|i: int| 0 <= i < files0.len() && (#[trigger] files0[i]).hash@ == g {
        let i = choose|i: int| 0 <= i < files0.len() && (#[trigger] files0[i]).hash@ == g;
        assert(files1[i].hash@ == g);
        lemma_hash_entry_exists(files0, g, i);
        lemma_hash_entry_exists(files1, g, i);
        let c0 = choose|c: int| is_hash_entry(files0, c) && (#[trigger] files0[c]).hash@ == g;
        let c1 = choose|c: int| is_hash_entry(files1, c) && (#[trigger] files1[c]).hash@ == g;
        assert(c1 < n);
        assert(files0[c1].hash@ == g);
        assert(is_hash_entry(files0, c1));
        if c0 < c1 {
            assert(files0[c1].hash@ != files0[c0].hash@);
        }
        if c1 < c0 {
            assert(files0[c0].hash@ != files0[c1].hash@);
        }
    } else {
        assert forall|i: int| 0 <= i < files1.len() implies (#[trigger] files1[i]).hash@ != g by {
            if i < n {
                assert(files0[i].hash@ != g);
            }
        }
    }
}

/// Where a file has the hash `h`, some file with that hash is the last with it.
proof fn lemma_hash_entry_exists(files: Seq<SourceFile>, h: Seq<u8>, i: int)
    requires
        0 <= i < files.len(),
        files[i].hash@ == h,
    ensures
        exists|c: int| is_hash_entry(files, c) && (#[trigger] files[c]).hash@ == h,
    decreases files.len() - i,
{
    if !is_hash_entry(files, i) {
        let j = choose|j: int| i < j < files.len() && (#[trigger] files[j]).hash@ == files[i].hash@;
        lemma_hash_entry_exists(files, h, j);
    }
}

/// The Move IR form of the unknown location maps back to the unknown location, where its
/// file is the first, has the hash of the text `<unknown>`, and no later file has that hash.
pub proof fn lemma_unknown_move_ir_loc(env: GlobalEnv, ir: MoveIrLoc)
    requires
        env.files@.len() > 0,
        env.files@[0].hash@ == sha256_digest("<unknown>"@),
        env.unknown_loc@.file == 0,
        forall|j: int| 0 < j < env.files@.len() ==> (#[trigger] env.files@[j]).hash@ != sha256_digest("<unknown>"@),
        ir.spec_hash() == sha256_digest("<unknown>"@),
        ir.spec_start() == env.unknown_loc@.start,
        ir.spec_end() == env.unknown_loc@.end,
    ensures
        file_with_hash(env.files@, sha256_digest("<unknown>"@)) == Some(env.unknown_loc@.file as int),
        env.to_loc_view(ir) == env.unknown_loc@,
{
    assert(is_hash_entry(env.files@, 0));
    let c = choose|c: int| is_hash_entry(env.files@, c) && (#[trigger] env.files@[c]).hash@ == sha256_digest("<unknown>"@);
    assert(c == 0);
}

/// A position in a source file: its line and its column, both counted from 0.
#[derive(Debug, Clone, Copy, PartialEq, Eq)]
pub struct Location {
    /// The line, counted from 0.
    pub line: usize,
    /// The column, counted in characters from 0.
    pub column: usize,
}

/// The number of bytes of `c` in UTF-8.
pub open spec fn utf8_width(c: char) -> nat {
    if (c as int) < 0x80 {
        1
    } else if (c as int) < 0x800 {
        2
    } else if (c as int) < 0x10000 {
        3
    } else {
        4
    }
}

/// The byte at which the character at position `k` of `s` starts in UTF-8; for `k` at the
/// end of `s`, the number of bytes of `s`.
pub open spec fn byte_offset(s: Seq<char>, k: int) -> nat
    decreases k,
{
    if k <= 0 {
        0
    } else {
        byte_offset(s, k - 1) + utf8_width(s[k - 1])
    }
}

/// The characters of a text start at strictly increasing bytes, so a byte starts at most one
/// character.
pub proof fn lemma_byte_offset_increasing(s: Seq<char>, a: int, b: int)
    requires
        0 <= a < b,
    ensures
        byte_offset(s, a) < byte_offset(s, b),
    decreases b,
{
    if a < b - 1 {
        lemma_byte_offset_increasing(s, a, b - 1);
    }
}

/// The number of line breaks among the first `k` characters of `s`.
pub open spec fn line_breaks(s: Seq<char>, k: int) -> nat
    decreases k,
{
    if k <= 0 {
        0
    } else {
        line_breaks(s, k - 1) + if s[k - 1] == '\n' {
            1nat
        } else {
            0nat
        }
    }
}

/// The position in `s` of the first character of the line of position `k`: just after the
/// last line break before `k`, or 0.
pub open spec fn line_begin(s: Seq<char>, k: int) -> int
    decreases k,
{
    if k <= 0 {
        0
    } else if s[k - 1] == '\n' {
        k
    } else {
        line_begin(s, k - 1)
    }
}

/// The byte `byte_index` of the text `source` starts the character at position `k`, or
/// ends the text where `k` is its length.
pub open spec fn at_char_boundary(source: Seq<char>, k: int, byte_index: int) -> bool {
    0 <= k <= source.len() && byte_offset(source, k) == byte_index
}

/// The line and the column at the byte `byte_index` of the text `source`, as
/// `codespan::Files::location` gives them for a file of that text: where the byte starts a
/// character or ends the text, the number of line breaks before it and the number of
/// characters from the start of its line to it; none where the index lies past the text or
/// inside a character, where codespan gives an error.
pub open spec fn codespan_location(source: Seq<char>, byte_index: u32) -> Option<(usize, usize)> {
    if exists|k: int| #[trigger] at_char_boundary(source, k, byte_index as int) {
        let k = choose|k: int| #[trigger] at_char_boundary(source, k, byte_index as int);
        Some((line_breaks(source, k) as usize, (k - line_begin(source, k)) as usize))
    } else {
        None
    }
}

/// The text between the bytes `start` and `end` of the text `source`, as
/// `codespan::Files::source_slice` gives it for a file of that text: where both bytes start a
/// character or end the text, the characters between them; none where a bound lies past the
/// text or inside a character, where codespan gives an error.
pub open spec fn codespan_source_slice(source: Seq<char>, start: u32, end: u32) -> Option<
    Seq<char>,
> {
    if exists|a: int, b: int|
        #[trigger] at_char_boundary(source, a, start as int) && #[trigger] at_char_boundary(
            source,
            b,
            end as int,
        ) && a <= b {
        let (a, b) = choose|a: int, b: int|
            #[trigger] at_char_boundary(source, a, start as int) && #[trigger] at_char_boundary(
                source,
                b,
                end as int,
            ) && a <= b;
        Some(source.subrange(a, b))
    } else {
        None
    }
}

/// Calls `codespan::Files::location` on a database of one file of the text `source`: the
/// line and column of the byte `byte_index`, as `codespan_location` states them; codespan
/// holds both as `u32` numbers. Where the text
/// is empty and the index is not 0, the error path of the call computes the largest index
/// of the text, below 0, so that input is left out.
#[verifier::external_body]
fn file_location(source: &str, byte_index: u32) -> (r: Option<(usize, usize)>)
    requires
        source@.len() > 0 || byte_index == 0,
    ensures
        r == codespan_location(source@, byte_index),
        r matches Some((line, column)) ==> line <= u32::MAX && column <= u32::MAX,
{
    let mut files = codespan::Files::new();
    let id = files.add("", source.to_string());
    match files.location(id, byte_index) {
        Ok(l) => Some((l.line.to_usize(), l.column.to_usize())),
        Err(_) => None,
    }
}

/// The error of `codespan_reporting` on an access to a file.
#[verifier::external_type_specification]
#[verifier::external_body]
pub struct ExFilesError(codespan_reporting::files::Error);

/// Calls `codespan::Files::source_slice` on a database of one file of the text `source`:
/// the text between the bytes `start` and `end`, as `codespan_source_slice` states it, or the
/// error of the call. Where the text is empty and the span is not empty at 0, the error path
/// of the call computes the largest index of the text, below 0, so that input is left out.
#[verifier::external_body]
fn file_source_slice(source: &str, start: u32, end: u32) -> (r: Result<
    String,
    codespan_reporting::files::Error,
>)
    requires
        start <= end,
        source@.len() > 0 || end == 0,
    ensures
        match codespan_source_slice(source@, start, end) {
            Some(t) => r matches Ok(s) && s@ == t,
            None => r is Err,
        },
{
    let mut files = codespan::Files::new();
    let id = files.add("", source.to_string());
    files.source_slice(id, codespan::Span::new(start, end)).map(|s| s.to_string())
}

/// The error of an access to the text of a source file.
#[derive(Debug, Clone, Copy, PartialEq, Eq)]
pub enum SourceError {
    /// A required file is not in the file database.
    FileMissing,
    /// The file does not contain the byte index `given`; its largest index is `max`.
    IndexTooLarge { given: usize, max: usize },
    /// The file does not contain the line `given`; its largest line is `max`.
    LineTooLarge { given: usize, max: usize },
    /// The line does not contain the column `given`; its largest column is `max`.
    ColumnTooLarge { given: usize, max: usize },
    /// The byte index `given` lies inside a character.
    InvalidCharBoundary { given: usize },
    /// Reading failed.
    Io,
}

/// The error of the library that an error of `codespan_reporting` stands for: the same
/// variant with the same fields, where reading failed without the error of the read.
#[verifier::external_body]
fn source_error(e: codespan_reporting::files::Error) -> (r: SourceError) {
    match e {
        FilesError::FileMissing => SourceError::FileMissing,
        FilesError::IndexTooLarge { given, max } => SourceError::IndexTooLarge { given, max },
        FilesError::LineTooLarge { given, max } => SourceError::LineTooLarge { given, max },
        FilesError::ColumnTooLarge { given, max } => SourceError::ColumnTooLarge { given, max },
        FilesError::InvalidCharBoundary { given } => SourceError::InvalidCharBoundary { given },
        _ => SourceError::Io,
    }
}

impl GlobalEnv {
    /// Returns the line and column of the start of `loc`, where its file has them. The file
    /// must be a file of the environment, and where its text is empty, `loc` must start at 0.
    pub fn get_location(&self, loc: &Loc) -> (r: Option<Location>)
        requires
            loc@.file < self.files@.len(),
            self.files@[loc@.file as int].source@.len() > 0 || loc@.start == 0,
        ensures
            match codespan_location(self.files@[loc@.file as int].source@, loc@.start as u32) {
                Some((line, column)) => r matches Some(l) && l.line == line && l.column == column,
                None => r is None,
            },
            r matches Some(l) ==> l.line <= u32::MAX && l.column <= u32::MAX,
    {
        let file = &self.files[loc.file_id().index() as usize];
        match file_location(file.source.as_str(), loc.span().start()) {
            Some((line, column)) => Some(Location { line, column }),
            None => None,
        }
    }

    /// Returns the name of the file of `loc` and the line and column of its start, where
    /// its file has them. The file must be a file of the environment, and where its text is
    /// empty, `loc` must start at 0.
    pub fn get_file_and_location(&self, loc: &Loc) -> (r: Option<(String, Location)>)
        requires
            loc@.file < self.files@.len(),
            self.files@[loc@.file as int].source@.len() > 0 || loc@.start == 0,
        ensures
            match codespan_location(self.files@[loc@.file as int].source@, loc@.start as u32) {
                Some((line, column)) => r matches Some((name, l)) && name@ == self.files@[loc@.file as int].name@
                    && l.line == line && l.column == column,
                None => r is None,
            },
            r matches Some((_, l)) ==> l.line <= u32::MAX && l.column <= u32::MAX,
    {
        match self.get_location(loc) {
            Some(l) => Some((self.files[loc.file_id().index() as usize].name.clone(), l)),
            None => None,
        }
    }

    /// Returns the text of `loc`, where its file has it. The file must be a file of the
    /// environment, and where its text is empty, `loc` must be empty at 0.
    pub fn get_source(&self, loc: &Loc) -> (r: Result<String, SourceError>)
        requires
            loc@.file < self.files@.len(),
            self.files@[loc@.file as int].source@.len() > 0 || loc@.end == 0,
        ensures
            match codespan_source_slice(
                self.files@[loc@.file as int].source@,
                loc@.start as u32,
                loc@.end as u32,
            ) {
                Some(t) => r matches Ok(s) && s@ == t,
                None => r is Err,
            },
    {
        let file = &self.files[loc.file_id().index() as usize];
        let span = loc.span();
        match file_source_slice(file.source.as_str(), span.start(), span.end()) {
            Ok(s) => Ok(s),
            Err(e) => Err(source_error(e)),
        }
    }
}

/// The text that `Debug` writes for a location of codespan: the file id of codespan, which
/// is the position of the file plus 1, and the span.
pub open spec fn loc_debug_text(loc: LocView) -> Seq<char> {
    "Loc { file_id: FileId("@ + decimal(loc.file + 1) + "), span: Span { start: ByteIndex("@
        + decimal(loc.start) + "), end: ByteIndex("@ + decimal(loc.end) + ") } }"@
}

impl GlobalEnv {
    /// The text that shows the location `loc`: `at`, the name of its file and the line of its
    /// start, counted from 1, and unless `only_line`, the column of its start, counted from 1,
    /// and its length; where its file has no such position, the text that `Debug` writes for
    /// the location.
    pub open spec fn loc_text(&self, loc: LocView, only_line: bool) -> Seq<char> {
        let f = self.files@[loc.file as int];
        match codespan_location(f.source@, loc.start as u32) {
            Some((line, column)) => if only_line {
                "at "@ + f.name@ + ":"@ + decimal((line + 1) as nat)
            } else {
                "at "@ + f.name@ + ":"@ + decimal((line + 1) as nat) + ":"@ + decimal((column + 1) as nat) + "+"@
                    + decimal((loc.end - loc.start) as nat)
            },
            None => loc_debug_text(loc),
        }
    }
}

impl Loc {
    /// Shows this location: its file, line, column and length. The file must be a file of
    /// `env`, and where its text is empty, the location must start at 0.
    pub fn display(&self, env: &GlobalEnv) -> (r: String)
        requires
            self@.file < env.files@.len(),
            env.files@[self@.file as int].source@.len() > 0 || self@.start == 0,
        ensures
            r@ == env.loc_text(self@, false),
    {
        self.display_text(env, false)
    }

    /// Shows this location: its file and line. The file must be a file of `env`, and where its
    /// text is empty, the location must start at 0.
    pub fn display_line_only(&self, env: &GlobalEnv) -> (r: String)
        requires
            self@.file < env.files@.len(),
            env.files@[self@.file as int].source@.len() > 0 || self@.start == 0,
        ensures
            r@ == env.loc_text(self@, true),
    {
        self.display_text(env, true)
    }

    /// Shows this location, with its column and length unless `only_line`.
    fn display_text(&self, env: &GlobalEnv, only_line: bool) -> (r: String)
        requires
            self@.file < env.files@.len(),
            env.files@[self@.file as int].source@.len() > 0 || self@.start == 0,
        ensures
            r@ == env.loc_text(self@, only_line),
    {
        let span = self.span();
        match env.get_file_and_location(self) {
            Some((fname, pos)) => {
                let r = String::from_str("at ").concat(fname.as_str()).concat(":").concat(
                    decimal_string(pos.line as u128 + 1).as_str(),
                );
                if only_line {
                    r
                } else {
                    r.concat(":").concat(decimal_string(pos.column as u128 + 1).as_str()).concat(
                        "+",
                    ).concat(decimal_string((span.end() - span.start()) as u128).as_str())
                }
            },
            None => {
                let file = self.file_id().index() as u128 + 1;
                String::from_str("Loc { file_id: FileId(").concat(decimal_string(file).as_str()).concat(
                    "), span: Span { start: ByteIndex(",
                ).concat(decimal_string(span.start() as u128).as_str()).concat(
                    "), end: ByteIndex(",
                ).concat(decimal_string(span.end() as u128).as_str()).concat(") } }")
            },
        }
    }
}

impl<'env> ModuleEnv<'env> {
    /// Returns the name of the source file of this module, which must be a file of the
    /// environment.
    pub fn get_source_path(&self) -> (r: &'env str)
        requires
            self.data().loc@.file < self.env().files@.len(),
        ensures
            r@ == self.env().files@[self.data().loc@.file as int].name@,
    {
        proof {
            use_type_invariant(self);
        }
        let env = self.env;
        env.get_file(env.module_data[self.idx].loc.file_id())
    }
}

} // verus!
