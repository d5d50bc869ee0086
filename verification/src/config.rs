use vstd::prelude::*;
use vstd::string::StringExecFns;

use crate::errors::InboxCoreError;
use crate::text::{starts_with, starts_with_exec, str_chars, string_from_chars, copy_range};

verus! {

/// Which operations a vault allows.
#[derive(Clone, Copy, Debug, PartialEq, Eq, Structural)]
pub struct VaultPermissions {
    pub allow_subfolders: bool,
    pub allow_upload: bool,
    pub allow_download: bool,
    pub allow_list: bool,
    pub allow_delete: bool,
    pub allow_metadata: bool,
    pub allow_lock_unlock: bool,
}

/// The permissions of a vault created without overrides: everything except subfolders.
pub open spec fn default_permissions() -> VaultPermissions {
    VaultPermissions {
        allow_subfolders: false,
        allow_upload: true,
        allow_download: true,
        allow_list: true,
        allow_delete: true,
        allow_metadata: true,
        allow_lock_unlock: true,
    }
}

impl Default for VaultPermissions {
    fn default() -> (r: Self)
        ensures
            r == default_permissions(),
    {
        VaultPermissions {
            allow_subfolders: false,
            allow_upload: true,
            allow_download: true,
            allow_list: true,
            allow_delete: true,
            allow_metadata: true,
            allow_lock_unlock: true,
        }
    }
}

/// A vault's configuration as stored in `.inbox-age.config`.
#[derive(Clone, Debug)]
pub struct VaultConfig {
    pub public_key: String,
    pub permissions: VaultPermissions,
}

/// What `create_vault` hands back.
#[derive(Debug)]
pub struct CreateVaultResult {
    pub public_key: String,
}

/// `true` or `false`.
pub open spec fn bool_text(b: bool) -> Seq<char> {
    if b {
        "true"@
    } else {
        "false"@
    }
}

/// The permissions as the compact JSON object written to the config file, fields in
/// declaration order.
pub open spec fn permissions_json(p: VaultPermissions) -> Seq<char> {
    "{\"allow_subfolders\":"@ + bool_text(p.allow_subfolders) + ",\"allow_upload\":"@ + bool_text(
        p.allow_upload,
    ) + ",\"allow_download\":"@ + bool_text(p.allow_download) + ",\"allow_list\":"@ + bool_text(
        p.allow_list,
    ) + ",\"allow_delete\":"@ + bool_text(p.allow_delete) + ",\"allow_metadata\":"@ + bool_text(
        p.allow_metadata,
    ) + ",\"allow_lock_unlock\":"@ + bool_text(p.allow_lock_unlock) + "}"@
}

/// A JSON object member `"key":true` or `"key":false`.
pub open spec fn json_bool_member(key: Seq<char>, value: bool) -> Seq<char> {
    seq!['"'] + key + seq!['"', ':'] + bool_text(value)
}

/// JSON object members, separated by commas.
pub open spec fn json_members(members: Seq<(Seq<char>, bool)>) -> Seq<char>
    decreases members.len(),
{
    if members.len() == 0 {
        Seq::empty()
    } else if members.len() == 1 {
        json_bool_member(members[0].0, members[0].1)
    } else {
        json_members(members.drop_last()) + seq![','] + json_bool_member(
            members.last().0,
            members.last().1,
        )
    }
}

/// The compact JSON object of boolean members, in order.
pub open spec fn json_bool_object(members: Seq<(Seq<char>, bool)>) -> Seq<char> {
    seq!['{'] + json_members(members) + seq!['}']
}

/// Each permission under its own name, in declaration order.
pub open spec fn permission_members(p: VaultPermissions) -> Seq<(Seq<char>, bool)> {
    seq![
        ("allow_subfolders"@, p.allow_subfolders),
        ("allow_upload"@, p.allow_upload),
        ("allow_download"@, p.allow_download),
        ("allow_list"@, p.allow_list),
        ("allow_delete"@, p.allow_delete),
        ("allow_metadata"@, p.allow_metadata),
        ("allow_lock_unlock"@, p.allow_lock_unlock),
    ]
}

proof fn lemma_first_member_literal()
    ensures
        "{\"allow_subfolders\":"@ =~= seq!['{'] + seq!['"'] + "allow_subfolders"@ + seq!['"', ':'],
        "}"@ =~= seq!['}'],
{
    reveal_strlit("{\"allow_subfolders\":");
    reveal_strlit("allow_subfolders");
    reveal_strlit("}");
}

proof fn lemma_member_literal_1()
    ensures
        ",\"allow_upload\":"@ =~= seq![','] + seq!['"'] + "allow_upload"@ + seq!['"', ':'],
{
    reveal_strlit(",\"allow_upload\":");
    reveal_strlit("allow_upload");
}

proof fn lemma_member_literal_2()
    ensures
        ",\"allow_download\":"@ =~= seq![','] + seq!['"'] + "allow_download"@ + seq!['"', ':'],
{
    reveal_strlit(",\"allow_download\":");
    reveal_strlit("allow_download");
}

proof fn lemma_member_literal_3()
    ensures
        ",\"allow_list\":"@ =~= seq![','] + seq!['"'] + "allow_list"@ + seq!['"', ':'],
{
    reveal_strlit(",\"allow_list\":");
    reveal_strlit("allow_list");
}

proof fn lemma_member_literal_4()
    ensures
        ",\"allow_delete\":"@ =~= seq![','] + seq!['"'] + "allow_delete"@ + seq!['"', ':'],
{
    reveal_strlit(",\"allow_delete\":");
    reveal_strlit("allow_delete");
}

proof fn lemma_member_literal_5()
    ensures
        ",\"allow_metadata\":"@ =~= seq![','] + seq!['"'] + "allow_metadata"@ + seq!['"', ':'],
{
    reveal_strlit(",\"allow_metadata\":");
    reveal_strlit("allow_metadata");
}

proof fn lemma_member_literal_6()
    ensures
        ",\"allow_lock_unlock\":"@ =~= seq![','] + seq!['"'] + "allow_lock_unlock"@ + seq!['"', ':'],
{
    reveal_strlit(",\"allow_lock_unlock\":");
    reveal_strlit("allow_lock_unlock");
}

proof fn lemma_member_step(
    prefix: Seq<char>,
    members: Seq<char>,
    longer: Seq<char>,
    key: Seq<char>,
    v: bool,
    lit: Seq<char>,
)
    requires
        prefix == seq!['{'] + members,
        longer == members + seq![','] + json_bool_member(key, v),
        lit =~= seq![','] + seq!['"'] + key + seq!['"', ':'],
    ensures
        prefix + lit + bool_text(v) == seq!['{'] + longer,
{
    assert(prefix + lit + bool_text(v) =~= seq!['{'] + longer);
}

proof fn lemma_members_prefix(m: Seq<(Seq<char>, bool)>, k: int)
    requires
        1 <= k < m.len(),
    ensures
        json_members(m.subrange(0, k + 1)) == json_members(m.subrange(0, k)) + seq![','] + json_bool_member(
            m[k].0,
            m[k].1,
        ),
{
    assert(m.subrange(0, k + 1).drop_last() =~= m.subrange(0, k));
}

/// The permissions are written as the compact JSON object that holds each permission under
/// its own field name, with its own value, in declaration order (what `serde_json` writes for
/// the struct).
pub proof fn law_permissions_json_names_each_field(p: VaultPermissions)
    ensures
        permissions_json(p) == json_bool_object(permission_members(p)),
{
    let m = permission_members(p);
    lemma_first_member_literal();
    assert(m.subrange(0, 1) =~= seq![m[0]]);
    assert(json_members(m.subrange(0, 1)) == json_bool_member(m[0].0, m[0].1));
    let q0 = "{\"allow_subfolders\":"@ + bool_text(p.allow_subfolders);
    assert(q0 =~= seq!['{'] + json_members(m.subrange(0, 1)));
    lemma_member_literal_1();
    lemma_members_prefix(m, 1);
    let q1 = q0 + ",\"allow_upload\":"@ + bool_text(p.allow_upload);
    lemma_member_step(q0, json_members(m.subrange(0, 1)), json_members(m.subrange(0, 2)), "allow_upload"@, p.allow_upload, ",\"allow_upload\":"@);
    lemma_member_literal_2();
    lemma_members_prefix(m, 2);
    let q2 = q1 + ",\"allow_download\":"@ + bool_text(p.allow_download);
    lemma_member_step(q1, json_members(m.subrange(0, 2)), json_members(m.subrange(0, 3)), "allow_download"@, p.allow_download, ",\"allow_download\":"@);
    lemma_member_literal_3();
    lemma_members_prefix(m, 3);
    let q3 = q2 + ",\"allow_list\":"@ + bool_text(p.allow_list);
    lemma_member_step(q2, json_members(m.subrange(0, 3)), json_members(m.subrange(0, 4)), "allow_list"@, p.allow_list, ",\"allow_list\":"@);
    lemma_member_literal_4();
    lemma_members_prefix(m, 4);
    let q4 = q3 + ",\"allow_delete\":"@ + bool_text(p.allow_delete);
    lemma_member_step(q3, json_members(m.subrange(0, 4)), json_members(m.subrange(0, 5)), "allow_delete"@, p.allow_delete, ",\"allow_delete\":"@);
    lemma_member_literal_5();
    lemma_members_prefix(m, 5);
    let q5 = q4 + ",\"allow_metadata\":"@ + bool_text(p.allow_metadata);
    lemma_member_step(q4, json_members(m.subrange(0, 5)), json_members(m.subrange(0, 6)), "allow_metadata"@, p.allow_metadata, ",\"allow_metadata\":"@);
    lemma_member_literal_6();
    lemma_members_prefix(m, 6);
    let q6 = q5 + ",\"allow_lock_unlock\":"@ + bool_text(p.allow_lock_unlock);
    lemma_member_step(q5, json_members(m.subrange(0, 6)), json_members(m.subrange(0, 7)), "allow_lock_unlock"@, p.allow_lock_unlock, ",\"allow_lock_unlock\":"@);
    assert(m.subrange(0, 7) =~= m);
    assert(permissions_json(p) == q6 + "}"@);
    assert(q6 + "}"@ =~= json_bool_object(m));
}

fn push_bool(out: &mut String, b: bool)
    ensures
        final(out)@ == old(out)@ + bool_text(b),
{
    if b {
        out.append("true");
    } else {
        out.append("false");
    }
}

/// Renders the permissions as the JSON object stored in the config file.
pub fn render_permissions_json(p: &VaultPermissions) -> (s: String)
    ensures
        s@ == permissions_json(*p),
{
    let mut s = String::from_str("{\"allow_subfolders\":");
    push_bool(&mut s, p.allow_subfolders);
    s.append(",\"allow_upload\":");
    push_bool(&mut s, p.allow_upload);
    s.append(",\"allow_download\":");
    push_bool(&mut s, p.allow_download);
    s.append(",\"allow_list\":");
    push_bool(&mut s, p.allow_list);
    s.append(",\"allow_delete\":");
    push_bool(&mut s, p.allow_delete);
    s.append(",\"allow_metadata\":");
    push_bool(&mut s, p.allow_metadata);
    s.append(",\"allow_lock_unlock\":");
    push_bool(&mut s, p.allow_lock_unlock);
    s.append("}");
    s
}

/// The prefix of the public-key line.
pub open spec fn public_key_prefix() -> Seq<char> {
    "public-key: "@
}

/// The prefix of the permissions line.
pub open spec fn permissions_prefix() -> Seq<char> {
    "permissions: "@
}

/// The prefix of the inbox-name line.
pub open spec fn inbox_name_prefix() -> Seq<char> {
    "inbox-name: "@
}

/// The text of `.inbox-age.config`.
pub open spec fn config_file_text(inbox_name: Seq<char>, config: VaultConfig) -> Seq<char> {
    inbox_name_prefix() + inbox_name + "\n"@ + public_key_prefix() + config.public_key@ + "\n"@
        + permissions_prefix() + permissions_json(config.permissions) + "\n"@
}

/// Renders the content of `.inbox-age.config`: the inbox name, the public key and the
/// permissions, one per line.
pub fn render_vault_config(inbox_name: &str, config: &VaultConfig) -> (s: String)
    ensures
        s@ == config_file_text(inbox_name@, *config),
{
    let permissions_json = render_permissions_json(&config.permissions);
    let mut s = String::from_str("inbox-name: ");
    s.append(inbox_name);
    s.append("\n");
    s.append("public-key: ");
    s.append(config.public_key.as_str());
    s.append("\n");
    s.append("permissions: ");
    s.append(permissions_json.as_str());
    s.append("\n");
    s
}

/// A line without one trailing carriage return.
pub open spec fn strip_cr(line: Seq<char>) -> Seq<char> {
    if line.len() > 0 && line.last() == '\r' {
        line.drop_last()
    } else {
        line
    }
}

/// The lines of `s` after the unfinished line `cur`, as std's `str::lines` splits them:
/// at each `\n`, dropping a `\r` just before it; a final line needs no terminator.
pub open spec fn lines_from(s: Seq<char>, cur: Seq<char>) -> Seq<Seq<char>>
    decreases s.len(),
{
    if s.len() == 0 {
        if cur.len() == 0 {
            Seq::empty()
        } else {
            seq![cur]
        }
    } else if s[0] == '\n' {
        seq![strip_cr(cur)] + lines_from(s.drop_first(), Seq::empty())
    } else {
        lines_from(s.drop_first(), cur.push(s[0]))
    }
}

/// The lines of `s` (std's `str::lines`).
pub open spec fn lines_of(s: Seq<char>) -> Seq<Seq<char>> {
    lines_from(s, Seq::empty())
}

/// What `str::trim_start_matches` leaves of `s` for a fixed pattern: every leading copy of
/// `prefix` is removed.
pub open spec fn trim_start_matches(s: Seq<char>, prefix: Seq<char>) -> Seq<char>
    decreases s.len(),
{
    if prefix.len() > 0 && starts_with(s, prefix) {
        trim_start_matches(s.subrange(prefix.len() as int, s.len() as int), prefix)
    } else {
        s
    }
}

/// What the config lines say: the value of the last `public-key: ` line (empty when there
/// is none) and the JSON text of every `permissions: ` line, in order.
pub open spec fn scan_lines(lines: Seq<Seq<char>>) -> (Seq<char>, Seq<Seq<char>>)
    decreases lines.len(),
{
    if lines.len() == 0 {
        (Seq::empty(), Seq::empty())
    } else {
        let (key, perms) = scan_lines(lines.drop_last());
        let line = lines.last();
        if starts_with(line, public_key_prefix()) {
            (trim_start_matches(line, public_key_prefix()), perms)
        } else if starts_with(line, permissions_prefix()) {
            (key, perms.push(trim_start_matches(line, permissions_prefix())))
        } else {
            (key, perms)
        }
    }
}

/// The lines of a config file that the reader looks at.
pub struct VaultConfigScan {
    /// The value of the last `public-key: ` line; empty when there is none.
    pub public_key: String,
    /// The JSON text of each `permissions: ` line, in file order.
    pub permissions: Vec<String>,
}

/// The texts held by a vector of strings.
pub open spec fn texts(v: Seq<String>) -> Seq<Seq<char>> {
    v.map_values(|s: String| s@)
}

/// Removes every leading copy of `prefix` from `line`.
pub fn trim_start_matches_exec(line: &[char], prefix: &[char]) -> (r: Vec<char>)
    ensures
        r@ == trim_start_matches(line@, prefix@),
{
    let mut start: usize = 0;
    assert(line@.subrange(0, line@.len() as int) =~= line@);
    while prefix.len() > 0 && prefix.len() <= line.len() - start && crate::text::run_at(
        line,
        prefix,
        start,
    )
        invariant
            start <= line@.len(),
            trim_start_matches(line@.subrange(start as int, line@.len() as int), prefix@)
                == trim_start_matches(line@, prefix@),
        decreases line@.len() - start,
    {
        let ghost cur = line@.subrange(start as int, line@.len() as int);
        assert(cur.subrange(0, prefix@.len() as int) =~= line@.subrange(
            start as int,
            start + prefix@.len(),
        ));
        assert(cur.subrange(prefix@.len() as int, cur.len() as int) =~= line@.subrange(
            start + prefix@.len(),
            line@.len() as int,
        ));
        start = start + prefix.len();
    }
    proof {
        let cur = line@.subrange(start as int, line@.len() as int);
        if prefix@.len() > 0 && prefix@.len() <= line@.len() - start {
            assert(cur.subrange(0, prefix@.len() as int) =~= line@.subrange(
                start as int,
                start + prefix@.len(),
            ));
        }
    }
    copy_range(line, start, line.len())
}

fn scan_line(
    line: &Vec<char>,
    key_prefix: &Vec<char>,
    perm_prefix: &Vec<char>,
    public_key: &mut Vec<char>,
    permissions: &mut Vec<String>,
)
    requires
        key_prefix@ == public_key_prefix(),
        perm_prefix@ == permissions_prefix(),
    ensures
        ({
            let (k, p) = scan_lines(seq![line@]);
            if starts_with(line@, public_key_prefix()) {
                final(public_key)@ == k && texts(final(permissions)@) == texts(old(permissions)@)
            } else if starts_with(line@, permissions_prefix()) {
                final(public_key)@ == old(public_key)@ && texts(final(permissions)@) == texts(
                    old(permissions)@,
                ).push(trim_start_matches(line@, permissions_prefix()))
            } else {
                final(public_key)@ == old(public_key)@ && texts(final(permissions)@) == texts(
                    old(permissions)@,
                )
            }
        }),
{
    if starts_with_exec(line, key_prefix) {
        *public_key = trim_start_matches_exec(line, key_prefix);
        assert(seq![line@].drop_last() =~= Seq::<Seq<char>>::empty());
    } else if starts_with_exec(line, perm_prefix) {
        let json = trim_start_matches_exec(line, perm_prefix);
        let ghost before = permissions@;
        permissions.push(string_from_chars(&json));
        assert(texts(permissions@) =~= texts(before).push(json@));
    }
}

/// Picks out the public key and the permission lines of a config file's content.
pub fn scan_vault_config(content: &str) -> (scan: VaultConfigScan)
    ensures
        (scan.public_key@, texts(scan.permissions@)) == scan_lines(lines_of(content@)),
{
    let chars = str_chars(content);
    let key_prefix = str_chars("public-key: ");
    let perm_prefix = str_chars("permissions: ");
    let mut public_key: Vec<char> = Vec::new();
    let mut permissions: Vec<String> = Vec::new();
    let mut cur: Vec<char> = Vec::new();
    let ghost mut done: Seq<Seq<char>> = Seq::empty();
    let mut i: usize = 0;
    assert(chars@.subrange(0, chars@.len() as int) =~= chars@);
    assert(texts(permissions@) =~= Seq::<Seq<char>>::empty());
    while i < chars.len()
        invariant
            i <= chars@.len(),
            chars@ == content@,
            key_prefix@ == public_key_prefix(),
            perm_prefix@ == permissions_prefix(),
            lines_of(content@) == done + lines_from(
                chars@.subrange(i as int, chars@.len() as int),
                cur@,
            ),
            (public_key@, texts(permissions@)) == scan_lines(done),
        decreases chars@.len() - i,
    {
        let c = chars[i];
        let ghost rest = chars@.subrange(i as int, chars@.len() as int);
        assert(rest[0] == c);
        assert(rest.drop_first() =~= chars@.subrange(i + 1, chars@.len() as int));
        if c == '\n' {
            let line = if cur.len() > 0 && cur[cur.len() - 1] == '\r' {
                copy_range(&cur, 0, cur.len() - 1)
            } else {
                copy_range(&cur, 0, cur.len())
            };
            proof {
                if !(cur@.len() > 0 && cur@.last() == '\r') {
                    assert(cur@.subrange(0, cur@.len() as int) =~= cur@);
                }
                assert(line@ == strip_cr(cur@));
            }
            scan_line(&line, &key_prefix, &perm_prefix, &mut public_key, &mut permissions);
            proof {
                let old_done = done;
                done = done.push(line@);
                assert(done.drop_last() =~= old_done);
                assert(seq![line@] + lines_from(chars@.subrange(i + 1, chars@.len() as int), Seq::empty())
                    == lines_from(rest, cur@));
                assert(old_done + lines_from(rest, cur@) =~= done + lines_from(
                    chars@.subrange(i + 1, chars@.len() as int),
                    Seq::empty(),
                ));
            }
            cur = Vec::new();
            assert(cur@ =~= Seq::<char>::empty());
        } else {
            cur.push(c);
        }
        i = i + 1;
    }
    proof {
        assert(chars@.subrange(i as int, chars@.len() as int) =~= Seq::<char>::empty());
    }
    if cur.len() > 0 {
        scan_line(&cur, &key_prefix, &perm_prefix, &mut public_key, &mut permissions);
        proof {
            let old_done = done;
            done = done.push(cur@);
            assert(done.drop_last() =~= old_done);
            assert(old_done + seq![cur@] =~= done);
        }
    } else {
        assert(done + Seq::<Seq<char>>::empty() =~= done);
    }
    VaultConfigScan { public_key: string_from_chars(&public_key), permissions }
}

/// The permissions that the permission lines give: those of the last line that parsed,
/// or the defaults when none did.
pub open spec fn effective_permissions(parsed: Seq<Option<VaultPermissions>>) -> VaultPermissions
    decreases parsed.len(),
{
    if parsed.len() == 0 {
        default_permissions()
    } else {
        match parsed.last() {
            Some(p) => p,
            None => effective_permissions(parsed.drop_last()),
        }
    }
}

/// Builds the vault configuration from the scanned public key and the outcome of parsing
/// each permission line's JSON (`None` where it did not parse). A config without a public key
/// is invalid; missing or unparseable permissions fall back to the defaults.
pub fn finish_vault_config(public_key: String, parsed: &[Option<VaultPermissions>]) -> (r: Result<
    VaultConfig,
    InboxCoreError,
>)
    ensures
        public_key@.len() == 0 ==> r matches Err(InboxCoreError::InvalidConfig),
        public_key@.len() > 0 ==> (r matches Ok(c) && c.public_key@ == public_key@
            && c.permissions == effective_permissions(parsed@)),
{
    let mut permissions = VaultPermissions::default();
    let mut i: usize = 0;
    assert(parsed@.subrange(0, 0) =~= Seq::<Option<VaultPermissions>>::empty());
    while i < parsed.len()
        invariant
            i <= parsed@.len(),
            permissions == effective_permissions(parsed@.subrange(0, i as int)),
        decreases parsed@.len() - i,
    {
        assert(parsed@.subrange(0, i + 1).drop_last() =~= parsed@.subrange(0, i as int));
        match parsed[i] {
            Some(p) => {
                permissions = p;
            },
            None => {},
        }
        i = i + 1;
    }
    assert(parsed@.subrange(0, i as int) =~= parsed@);
    if public_key.as_str().is_empty() {
        return Err(InboxCoreError::InvalidConfig);
    }
    Ok(VaultConfig { public_key, permissions })
}

proof fn lemma_lines_through_newline(a: Seq<char>, b: Seq<char>, cur: Seq<char>)
    requires
        !a.contains('\n'),
    ensures
        lines_from(a + seq!['\n'] + b, cur) == seq![strip_cr(cur + a)] + lines_from(
            b,
            Seq::empty(),
        ),
    decreases a.len(),
{
    let s = a + seq!['\n'] + b;
    if a.len() == 0 {
        assert(s =~= seq!['\n'] + b);
        assert(s.drop_first() =~= b);
        assert(cur + a =~= cur);
    } else {
        assert(s[0] == a[0]);
        assert(s.drop_first() =~= a.drop_first() + seq!['\n'] + b);
        assert(!a.drop_first().contains('\n')) by {
            if a.drop_first().contains('\n') {
                let k = choose|k: int| 0 <= k < a.drop_first().len() && a.drop_first()[k] == '\n';
                assert(a[k + 1] == '\n');
            }
        }
        assert(a[0] != '\n') by {
            if a[0] == '\n' {
                assert(a.contains('\n'));
            }
        }
        lemma_lines_through_newline(a.drop_first(), b, cur.push(a[0]));
        assert(cur.push(a[0]) + a.drop_first() =~= cur + a);
    }
}

proof fn lemma_trim_one_prefix(prefix: Seq<char>, x: Seq<char>)
    requires
        prefix.len() > 0,
        !starts_with(x, prefix),
    ensures
        trim_start_matches(prefix + x, prefix) == x,
{
    let s = prefix + x;
    assert(s.subrange(0, prefix.len() as int) =~= prefix);
    assert(s.subrange(prefix.len() as int, s.len() as int) =~= x);
    assert(trim_start_matches(x, prefix) == x);
}

/// `s` holds no line feed.
#[verifier::opaque]
pub open spec fn no_newline(s: Seq<char>) -> bool {
    !s.contains('\n')
}

proof fn lemma_concat_no_newline(a: Seq<char>, b: Seq<char>)
    requires
        no_newline(a),
        no_newline(b),
    ensures
        no_newline(a + b),
{
    reveal(no_newline);
    lemma_concat_lacks(a, b, '\n');
}

proof fn lemma_concat_lacks(a: Seq<char>, b: Seq<char>, c: char)
    requires
        !a.contains(c),
        !b.contains(c),
    ensures
        !(a + b).contains(c),
{
    if (a + b).contains(c) {
        let k = choose|k: int| 0 <= k < (a + b).len() && (a + b)[k] == c;
        if k < a.len() {
            assert(a[k] == c);
        } else {
            assert(b[k - a.len()] == c);
        }
    }
}

proof fn lemma_bool_text_lacks_newline(b: bool)
    ensures
        no_newline(bool_text(b)),
{
    reveal(no_newline);
    reveal_strlit("true");
    reveal_strlit("false");
}

proof fn lemma_json_part_0()
    ensures
        no_newline("{\"allow_subfolders\":"@),
        "{\"allow_subfolders\":"@.len() > 0,
        "{\"allow_subfolders\":"@[0] == '{',
{
    reveal(no_newline);
    reveal_strlit("{\"allow_subfolders\":");
}

proof fn lemma_json_part_1()
    ensures
        no_newline(",\"allow_upload\":"@),
{
    reveal(no_newline);
    reveal_strlit(",\"allow_upload\":");
}

proof fn lemma_json_part_2()
    ensures
        no_newline(",\"allow_download\":"@),
{
    reveal(no_newline);
    reveal_strlit(",\"allow_download\":");
}

proof fn lemma_json_part_3()
    ensures
        no_newline(",\"allow_list\":"@),
{
    reveal(no_newline);
    reveal_strlit(",\"allow_list\":");
}

proof fn lemma_json_part_4()
    ensures
        no_newline(",\"allow_delete\":"@),
{
    reveal(no_newline);
    reveal_strlit(",\"allow_delete\":");
}

proof fn lemma_json_part_5()
    ensures
        no_newline(",\"allow_metadata\":"@),
{
    reveal(no_newline);
    reveal_strlit(",\"allow_metadata\":");
}

proof fn lemma_json_part_6()
    ensures
        no_newline(",\"allow_lock_unlock\":"@),
{
    reveal(no_newline);
    reveal_strlit(",\"allow_lock_unlock\":");
}

proof fn lemma_json_part_7()
    ensures
        no_newline("}"@),
        "}"@ == seq!['}'],
{
    reveal(no_newline);
    reveal_strlit("}");
}

proof fn lemma_json_shape(p: VaultPermissions)
    ensures
        no_newline(permissions_json(p)),
{
    lemma_json_part_0();
    lemma_json_part_1();
    lemma_json_part_2();
    lemma_json_part_3();
    lemma_json_part_4();
    lemma_json_part_5();
    lemma_json_part_6();
    lemma_json_part_7();
    let a0 = "{\"allow_subfolders\":"@;
    lemma_bool_text_lacks_newline(p.allow_subfolders);
    lemma_concat_no_newline(a0, bool_text(p.allow_subfolders));
    let b0 = a0 + bool_text(p.allow_subfolders);
    lemma_concat_no_newline(b0, ",\"allow_upload\":"@);
    let c0 = b0 + ",\"allow_upload\":"@;
    lemma_bool_text_lacks_newline(p.allow_upload);
    lemma_concat_no_newline(c0, bool_text(p.allow_upload));
    let b1 = c0 + bool_text(p.allow_upload);
    lemma_concat_no_newline(b1, ",\"allow_download\":"@);
    let c1 = b1 + ",\"allow_download\":"@;
    lemma_bool_text_lacks_newline(p.allow_download);
    lemma_concat_no_newline(c1, bool_text(p.allow_download));
    let b2 = c1 + bool_text(p.allow_download);
    lemma_concat_no_newline(b2, ",\"allow_list\":"@);
    let c2 = b2 + ",\"allow_list\":"@;
    lemma_bool_text_lacks_newline(p.allow_list);
    lemma_concat_no_newline(c2, bool_text(p.allow_list));
    let b3 = c2 + bool_text(p.allow_list);
    lemma_concat_no_newline(b3, ",\"allow_delete\":"@);
    let c3 = b3 + ",\"allow_delete\":"@;
    lemma_bool_text_lacks_newline(p.allow_delete);
    lemma_concat_no_newline(c3, bool_text(p.allow_delete));
    let b4 = c3 + bool_text(p.allow_delete);
    lemma_concat_no_newline(b4, ",\"allow_metadata\":"@);
    let c4 = b4 + ",\"allow_metadata\":"@;
    lemma_bool_text_lacks_newline(p.allow_metadata);
    lemma_concat_no_newline(c4, bool_text(p.allow_metadata));
    let b5 = c4 + bool_text(p.allow_metadata);
    lemma_concat_no_newline(b5, ",\"allow_lock_unlock\":"@);
    let c5 = b5 + ",\"allow_lock_unlock\":"@;
    lemma_bool_text_lacks_newline(p.allow_lock_unlock);
    lemma_concat_no_newline(c5, bool_text(p.allow_lock_unlock));
    let b6 = c5 + bool_text(p.allow_lock_unlock);
    lemma_concat_no_newline(b6, "}"@);
    let c6 = b6 + "}"@;
    assert(c6 == permissions_json(p));
}

proof fn lemma_head_kept(s: Seq<char>, t: Seq<char>)
    requires
        s.len() > 0,
        s[0] == '{',
    ensures
        (s + t).len() > 0,
        (s + t)[0] == '{',
{
}

proof fn lemma_json_edges(p: VaultPermissions)
    ensures
        permissions_json(p).len() > 0,
        permissions_json(p)[0] == '{',
        permissions_json(p).last() == '}',
{
    lemma_json_part_0();
    lemma_json_part_7();
    let a0 = "{\"allow_subfolders\":"@;
    lemma_head_kept(a0, bool_text(p.allow_subfolders));
    let b0 = a0 + bool_text(p.allow_subfolders);
    lemma_head_kept(b0, ",\"allow_upload\":"@);
    let c0 = b0 + ",\"allow_upload\":"@;
    lemma_head_kept(c0, bool_text(p.allow_upload));
    let b1 = c0 + bool_text(p.allow_upload);
    lemma_head_kept(b1, ",\"allow_download\":"@);
    let c1 = b1 + ",\"allow_download\":"@;
    lemma_head_kept(c1, bool_text(p.allow_download));
    let b2 = c1 + bool_text(p.allow_download);
    lemma_head_kept(b2, ",\"allow_list\":"@);
    let c2 = b2 + ",\"allow_list\":"@;
    lemma_head_kept(c2, bool_text(p.allow_list));
    let b3 = c2 + bool_text(p.allow_list);
    lemma_head_kept(b3, ",\"allow_delete\":"@);
    let c3 = b3 + ",\"allow_delete\":"@;
    lemma_head_kept(c3, bool_text(p.allow_delete));
    let b4 = c3 + bool_text(p.allow_delete);
    lemma_head_kept(b4, ",\"allow_metadata\":"@);
    let c4 = b4 + ",\"allow_metadata\":"@;
    lemma_head_kept(c4, bool_text(p.allow_metadata));
    let b5 = c4 + bool_text(p.allow_metadata);
    lemma_head_kept(b5, ",\"allow_lock_unlock\":"@);
    let c5 = b5 + ",\"allow_lock_unlock\":"@;
    lemma_head_kept(c5, bool_text(p.allow_lock_unlock));
    let b6 = c5 + bool_text(p.allow_lock_unlock);
    lemma_head_kept(b6, "}"@);
    let c6 = b6 + "}"@;
    assert(c6.last() == '}');
}

proof fn lemma_prefix_texts()
    ensures
        no_newline(inbox_name_prefix()),
        no_newline(public_key_prefix()),
        no_newline(permissions_prefix()),
        inbox_name_prefix().len() == 12,
        public_key_prefix().len() == 12,
        permissions_prefix().len() == 13,
        inbox_name_prefix()[0] == 'i',
        public_key_prefix()[0] == 'p',
        public_key_prefix()[1] == 'u',
        permissions_prefix()[0] == 'p',
        permissions_prefix()[1] == 'e',
        "\n"@ == seq!['\n'],
{
    reveal(no_newline);
    reveal_strlit("inbox-name: ");
    reveal_strlit("public-key: ");
    reveal_strlit("permissions: ");
    reveal_strlit("\n");
}

proof fn lemma_config_lines(inbox_name: Seq<char>, config: VaultConfig)
    requires
        no_newline(inbox_name),
        no_newline(config.public_key@),
        !config.public_key@.contains('\r'),
    ensures
        lines_of(config_file_text(inbox_name, config)) == seq![
            strip_cr(inbox_name_prefix() + inbox_name),
            public_key_prefix() + config.public_key@,
            permissions_prefix() + permissions_json(config.permissions),
        ],
{
    lemma_prefix_texts();
    lemma_json_shape(config.permissions);
    lemma_json_edges(config.permissions);
    let pk = config.public_key@;
    let json = permissions_json(config.permissions);
    let l1 = inbox_name_prefix() + inbox_name;
    let l2 = public_key_prefix() + pk;
    let l3 = permissions_prefix() + json;
    let nl = seq!['\n'];
    lemma_concat_no_newline(inbox_name_prefix(), inbox_name);
    lemma_concat_no_newline(public_key_prefix(), pk);
    lemma_concat_no_newline(permissions_prefix(), json);
    reveal(no_newline);
    let text = config_file_text(inbox_name, config);
    assert(text =~= l1 + nl + (l2 + nl + (l3 + nl + Seq::empty())));
    lemma_lines_through_newline(l1, l2 + nl + (l3 + nl + Seq::empty()), Seq::empty());
    lemma_lines_through_newline(l2, l3 + nl + Seq::empty(), Seq::empty());
    lemma_lines_through_newline(l3, Seq::empty(), Seq::empty());
    assert(Seq::<char>::empty() + l1 =~= l1);
    assert(Seq::<char>::empty() + l2 =~= l2);
    assert(Seq::<char>::empty() + l3 =~= l3);
    assert(strip_cr(l2) == l2) by {
        if l2.len() > 0 && l2.last() == '\r' {
            if pk.len() > 0 {
                assert(pk[pk.len() - 1] == '\r');
                assert(pk.contains('\r'));
            } else {
                assert(l2.last() == public_key_prefix()[11]);
                reveal_strlit("public-key: ");
            }
        }
    }
    assert(l3.last() == '}');
    assert(strip_cr(l3) == l3);
    assert(lines_from(Seq::<char>::empty(), Seq::<char>::empty()) =~= Seq::<Seq<char>>::empty());
    assert(lines_of(text) =~= seq![strip_cr(l1), l2, l3]);
}

proof fn lemma_config_scan(first: Seq<char>, pk: Seq<char>, json: Seq<char>)
    requires
        first.len() > 0 && first[0] == 'i',
        !starts_with(pk, public_key_prefix()),
        json.len() > 0 && json[0] == '{',
    ensures
        scan_lines(seq![first, public_key_prefix() + pk, permissions_prefix() + json]) == (
            pk,
            seq![json],
        ),
{
    lemma_prefix_texts();
    let l2 = public_key_prefix() + pk;
    let l3 = permissions_prefix() + json;
    assert(!starts_with(first, public_key_prefix())) by {
        if first.len() >= 12 {
            assert(first.subrange(0, 12)[0] != public_key_prefix()[0]);
        }
    }
    assert(!starts_with(first, permissions_prefix())) by {
        if first.len() >= 13 {
            assert(first.subrange(0, 13)[0] != permissions_prefix()[0]);
        }
    }
    assert(l2.subrange(0, 12) =~= public_key_prefix());
    assert(l3.subrange(0, 13) =~= permissions_prefix());
    assert(!starts_with(l3, public_key_prefix())) by {
        assert(l3.subrange(0, 12)[1] != public_key_prefix()[1]);
    }
    assert(!starts_with(json, permissions_prefix())) by {
        if json.len() >= 13 {
            assert(json.subrange(0, 13)[0] != permissions_prefix()[0]);
        }
    }
    lemma_trim_one_prefix(public_key_prefix(), pk);
    lemma_trim_one_prefix(permissions_prefix(), json);
    let lines = seq![first, l2, l3];
    assert(lines.drop_last() =~= seq![first, l2]);
    assert(seq![first, l2].drop_last() =~= seq![first]);
    assert(seq![first].drop_last() =~= Seq::<Seq<char>>::empty());
    assert(Seq::<Seq<char>>::empty().push(json) =~= seq![json]);
    assert(scan_lines(Seq::<Seq<char>>::empty()) == (Seq::<char>::empty(), Seq::<Seq<char>>::empty()));
    assert(scan_lines(seq![first]) == (Seq::<char>::empty(), Seq::<Seq<char>>::empty()));
    assert(scan_lines(seq![first, l2]) == (pk, Seq::<Seq<char>>::empty()));
    assert(scan_lines(lines) == (pk, seq![json]));
}

/// What the config reader finds in a freshly written config file: the public key that was
/// written, and one permissions line holding exactly the written permissions' JSON; once that
/// JSON is parsed back to the same permissions, they are the config's permissions. Names and
/// keys that hold line breaks, and keys that themselves begin with `public-key: `, are left out:
/// the line-based format cannot carry them.
pub proof fn law_config_read_gives_back_write(inbox_name: Seq<char>, config: VaultConfig)
    requires
        !inbox_name.contains('\n'),
        !config.public_key@.contains('\n'),
        !config.public_key@.contains('\r'),
        !starts_with(config.public_key@, public_key_prefix()),
    ensures
        scan_lines(lines_of(config_file_text(inbox_name, config))) == (
            config.public_key@,
            seq![permissions_json(config.permissions)],
        ),
        effective_permissions(seq![Some(config.permissions)]) == config.permissions,
{
    reveal(no_newline);
    lemma_config_lines(inbox_name, config);
    lemma_prefix_texts();
    lemma_json_edges(config.permissions);
    let l1 = inbox_name_prefix() + inbox_name;
    assert(l1[0] == 'i');
    assert(strip_cr(l1).len() > 0 && strip_cr(l1)[0] == 'i');
    lemma_config_scan(strip_cr(l1), config.public_key@, permissions_json(config.permissions));
}

} // verus!
