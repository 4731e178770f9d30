//! The registry of named operations: which exist, which access to the
//! session each needs, and the checks that run before one executes.
use vstd::prelude::*;

use crate::config::PartialToolsetConfig;
use crate::error::{Error, ErrorKind};
use crate::images::{ReadImageMetadata, RenderImageFile};
use crate::json::{OpenJsonWithSchema, PersistJson};
use crate::mods::{GetAvailableMods, GetEditableMods, NewMod, SetSelectedMod};
use crate::params::{check_no_parent_ref, has_parent_ref, lower_of, same_text};
use crate::resources::List;
use crate::sounds::{sound_kind, Read};
use crate::toolset::{GetToolsetConfig, SetToolsetConfig, ToolsetReadConfig, ToolsetUpdateConfig};

verus! {

/// The access to the session that an operation holds while it runs.
#[derive(Clone, Copy, Debug, PartialEq, Eq, Structural)]
pub enum Access {
    Read,
    Write,
}

/// The operations that the toolset offers.
#[derive(Clone, Copy, Debug, PartialEq, Eq, Structural)]
pub enum Operation {
    ReadConfig,
    UpdateConfig,
    GetToolsetConfig,
    SetToolsetConfig,
    GetAvailableMods,
    GetEditableMods,
    SelectMod,
    CreateMod,
    ListResources,
    RenderImageFile,
    ReadImageMetadata,
    ReadSound,
    OpenJsonWithSchema,
    PersistJson,
}

impl Operation {
    pub open spec fn spec_name(self) -> Seq<char> {
        match self {
            Operation::ReadConfig => "toolset/readConfig"@,
            Operation::UpdateConfig => "toolset/updateConfig"@,
            Operation::GetToolsetConfig => "get_toolset_config"@,
            Operation::SetToolsetConfig => "set_toolset_config"@,
            Operation::GetAvailableMods => "get_available_mods"@,
            Operation::GetEditableMods => "get_editable_mods"@,
            Operation::SelectMod => "set_selected_mod"@,
            Operation::CreateMod => "new_mod"@,
            Operation::ListResources => "resources/list"@,
            Operation::RenderImageFile => "render_image_file"@,
            Operation::ReadImageMetadata => "read_image_metadata"@,
            Operation::ReadSound => "sound/read"@,
            Operation::OpenJsonWithSchema => "open_json_with_schema"@,
            Operation::PersistJson => "persist_json"@,
        }
    }

    /// The name under which the operation is invoked.
    pub fn name(&self) -> (r: &'static str)
        ensures
            r@ == self.spec_name(),
    {
        match self {
            Operation::ReadConfig => ToolsetReadConfig::name(),
            Operation::UpdateConfig => ToolsetUpdateConfig::name(),
            Operation::GetToolsetConfig => GetToolsetConfig::name(),
            Operation::SetToolsetConfig => SetToolsetConfig::name(),
            Operation::GetAvailableMods => GetAvailableMods::name(),
            Operation::GetEditableMods => GetEditableMods::name(),
            Operation::SelectMod => SetSelectedMod::name(),
            Operation::CreateMod => NewMod::name(),
            Operation::ListResources => List::name(),
            Operation::RenderImageFile => RenderImageFile::name(),
            Operation::ReadImageMetadata => ReadImageMetadata::name(),
            Operation::ReadSound => Read::name(),
            Operation::OpenJsonWithSchema => OpenJsonWithSchema::name(),
            Operation::PersistJson => PersistJson::name(),
        }
    }

    /// Updating the configuration, selecting a mod and creating one change the
    /// session; every other operation only reads it.
    pub open spec fn spec_access(self) -> Access {
        match self {
            Operation::UpdateConfig | Operation::SetToolsetConfig | Operation::SelectMod | Operation::CreateMod => Access::Write,
            _ => Access::Read,
        }
    }

    pub fn access(&self) -> (r: Access)
        ensures
            r == self.spec_access(),
    {
        match self {
            Operation::UpdateConfig | Operation::SetToolsetConfig | Operation::SelectMod | Operation::CreateMod => Access::Write,
            _ => Access::Read,
        }
    }
}

/// The length of an operation's name and its first and fifth characters,
/// which tell the names apart.
spec fn name_key(op: Operation) -> (int, char, char) {
    (op.spec_name().len() as int, op.spec_name()[0], op.spec_name()[4])
}

proof fn lemma_name_keys()
    ensures
        name_key(Operation::ReadConfig) == (18int, 't', 's'),
        name_key(Operation::UpdateConfig) == (20int, 't', 's'),
        name_key(Operation::GetToolsetConfig) == (18int, 'g', 't'),
        name_key(Operation::SetToolsetConfig) == (18int, 's', 't'),
        name_key(Operation::GetAvailableMods) == (18int, 'g', 'a'),
        name_key(Operation::GetEditableMods) == (17int, 'g', 'e'),
        name_key(Operation::SelectMod) == (16int, 's', 's'),
        name_key(Operation::CreateMod) == (7int, 'n', 'm'),
        name_key(Operation::ListResources) == (14int, 'r', 'u'),
        name_key(Operation::RenderImageFile) == (17int, 'r', 'e'),
        name_key(Operation::ReadImageMetadata) == (19int, 'r', '_'),
        name_key(Operation::ReadSound) == (10int, 's', 'd'),
        name_key(Operation::OpenJsonWithSchema) == (21int, 'o', '_'),
        name_key(Operation::PersistJson) == (12int, 'p', 'i'),
{
    reveal_strlit("toolset/readConfig");
    reveal_strlit("toolset/updateConfig");
    reveal_strlit("get_toolset_config");
    reveal_strlit("set_toolset_config");
    reveal_strlit("get_available_mods");
    reveal_strlit("get_editable_mods");
    reveal_strlit("set_selected_mod");
    reveal_strlit("new_mod");
    reveal_strlit("resources/list");
    reveal_strlit("render_image_file");
    reveal_strlit("read_image_metadata");
    reveal_strlit("sound/read");
    reveal_strlit("open_json_with_schema");
    reveal_strlit("persist_json");
}

/// Distinct operations have distinct names.
pub proof fn lemma_names_distinct(a: Operation, b: Operation)
    ensures
        a != b ==> a.spec_name() != b.spec_name(),
{
    lemma_name_keys();
    if a.spec_name() == b.spec_name() {
        assert(name_key(a) == name_key(b));
    }
}

/// Every operation, in the order of registration.
pub open spec fn all_operations() -> Seq<Operation> {
    seq![
        Operation::RenderImageFile,
        Operation::ReadImageMetadata,
        Operation::OpenJsonWithSchema,
        Operation::PersistJson,
        Operation::GetAvailableMods,
        Operation::GetEditableMods,
        Operation::SelectMod,
        Operation::CreateMod,
        Operation::ListResources,
        Operation::ReadSound,
        Operation::ReadConfig,
        Operation::UpdateConfig,
        Operation::GetToolsetConfig,
        Operation::SetToolsetConfig,
    ]
}

/// Some registered operation has this name.
pub open spec fn is_registered(ops: Seq<Operation>, name: Seq<char>) -> bool {
    exists|i: int| 0 <= i < ops.len() && #[trigger] ops[i].spec_name() == name
}

/// The registry of operations by name.
pub struct Invokables {
    ops: Vec<Operation>,
}

impl View for Invokables {
    type V = Seq<Operation>;

    closed spec fn view(&self) -> Seq<Operation> {
        self.ops@
    }
}

impl Invokables {
    /// No two registered operations share a name.
    pub open spec fn wf(&self) -> bool {
        forall|i: int, j: int|
            0 <= i < self@.len() && 0 <= j < self@.len() && i != j ==> #[trigger] self@[i].spec_name()
                != #[trigger] self@[j].spec_name()
    }

    /// A registry with no operation.
    pub fn empty() -> (r: Self)
        ensures
            r.wf(),
            r@ == Seq::<Operation>::empty(),
    {
        Invokables { ops: Vec::new() }
    }

    /// Adds an operation under its name, which no registered one may have.
    pub fn register(&mut self, op: Operation)
        requires
            old(self).wf(),
            !is_registered(old(self)@, op.spec_name()),
        ensures
            final(self).wf(),
            final(self)@ == old(self)@.push(op),
    {
        self.ops.push(op);
        assert forall|i: int, j: int|
            0 <= i < self@.len() && 0 <= j < self@.len() && i != j implies #[trigger] self@[i].spec_name()
                != #[trigger] self@[j].spec_name() by {
            if i == self@.len() - 1 {
                assert(old(self)@[j] == self@[j]);
            } else if j == self@.len() - 1 {
                assert(old(self)@[i] == self@[i]);
            } else {
                assert(old(self)@[i] == self@[i]);
                assert(old(self)@[j] == self@[j]);
            }
        }
    }

    /// The registry of every operation.
    pub fn new() -> (r: Self)
        ensures
            r.wf(),
            r@ == all_operations(),
    {
        proof {
            assert forall|a: Operation, b: Operation| a != b implies #[trigger] a.spec_name() != #[trigger] b.spec_name() by {
                lemma_names_distinct(a, b);
            }
        }
        let mut r = Invokables::empty();
        r.register(Operation::RenderImageFile);
        r.register(Operation::ReadImageMetadata);
        r.register(Operation::OpenJsonWithSchema);
        r.register(Operation::PersistJson);
        r.register(Operation::GetAvailableMods);
        r.register(Operation::GetEditableMods);
        r.register(Operation::SelectMod);
        r.register(Operation::CreateMod);
        r.register(Operation::ListResources);
        r.register(Operation::ReadSound);
        r.register(Operation::ReadConfig);
        r.register(Operation::UpdateConfig);
        r.register(Operation::GetToolsetConfig);
        r.register(Operation::SetToolsetConfig);
        assert(r@ =~= all_operations());
        r
    }

    /// The operation registered under `name`.
    pub fn lookup(&self, name: &str) -> (r: Result<Operation, Error>)
        ensures
            r is Ok <==> is_registered(self@, name@),
            r matches Ok(op) ==> op.spec_name() == name@ && self@.contains(op),
            r matches Err(e) ==> e.kind == ErrorKind::NotFound && e.message@ == "invokable "@ + name@ + " not found"@,
    {
        let mut i: usize = 0;
        while i < self.ops.len()
            invariant
                i <= self@.len(),
                self@ == self.ops@,
                forall|j: int| 0 <= j < i ==> #[trigger] self@[j].spec_name() != name@,
            decreases self@.len() - i,
        {
            let op = self.ops[i];
            if same_text(op.name(), name) {
                assert(self@[i as int] == op);
                return Ok(op);
            }
            i = i + 1;
        }
        let mut msg = "invokable ".to_string();
        msg.append(name);
        msg.append(" not found");
        Err(Error { kind: ErrorKind::NotFound, message: msg })
    }

    /// Looks up `name`, then checks the parameters that were decoded for it:
    /// a decoding failure, parameters of another operation, or parameters
    /// that fail validation are parameter errors. Gives the parameters back
    /// with the access that the operation needs.
    pub fn prepare(&self, name: &str, decoded: Result<Request, Error>) -> (r: Result<(Request, Access), Error>)
        ensures
            r is Ok <==> (is_registered(self@, name@) && (decoded matches Ok(req) && req.operation().spec_name()
                == name@ && req.is_valid())),
            r matches Ok((req, access)) ==> decoded == Ok::<Request, Error>(req) && access
                == req.operation().spec_access(),
            !is_registered(self@, name@) ==> (r matches Err(e) && e.kind == ErrorKind::NotFound),
            is_registered(self@, name@) ==> (r matches Err(e) ==> e.kind == ErrorKind::Parameter),
    {
        let op = self.lookup(name)?;
        let req = match decoded {
            Ok(req) => req,
            Err(e) => {
                let e = Error { kind: ErrorKind::Parameter, message: e.message };
                return Err(e.with_context("invalid payload for invokable"));
            },
        };
        let req_op = req.operation_of();
        proof {
            lemma_names_distinct(req_op, op);
        }
        if req_op != op {
            return Err(Error::new(ErrorKind::Parameter, "parameters belong to another invokable"));
        }
        match req.validate() {
            Ok(()) => {},
            Err(e) => {
                return Err(e.with_context("invalid payload for invokable"));
            },
        }
        let access = op.access();
        Ok((req, access))
    }
}

/// The parameters of an invocation, decoded for their operation.
#[derive(Debug)]
pub enum Request {
    ReadConfig,
    UpdateConfig(ToolsetUpdateConfig),
    GetToolsetConfig,
    SetToolsetConfig(SetToolsetConfig),
    GetAvailableMods,
    GetEditableMods,
    SelectMod(SetSelectedMod),
    CreateMod(NewMod),
    ListResources(List),
    RenderImageFile(RenderImageFile),
    ReadImageMetadata(ReadImageMetadata),
    ReadSound(Read),
    OpenJsonWithSchema(OpenJsonWithSchema),
    PersistJson(PersistJson),
}

impl Request {
    pub open spec fn operation(&self) -> Operation {
        match self {
            Request::ReadConfig => Operation::ReadConfig,
            Request::UpdateConfig(_) => Operation::UpdateConfig,
            Request::GetToolsetConfig => Operation::GetToolsetConfig,
            Request::SetToolsetConfig(_) => Operation::SetToolsetConfig,
            Request::GetAvailableMods => Operation::GetAvailableMods,
            Request::GetEditableMods => Operation::GetEditableMods,
            Request::SelectMod(_) => Operation::SelectMod,
            Request::CreateMod(_) => Operation::CreateMod,
            Request::ListResources(_) => Operation::ListResources,
            Request::RenderImageFile(_) => Operation::RenderImageFile,
            Request::ReadImageMetadata(_) => Operation::ReadImageMetadata,
            Request::ReadSound(_) => Operation::ReadSound,
            Request::OpenJsonWithSchema(_) => Operation::OpenJsonWithSchema,
            Request::PersistJson(_) => Operation::PersistJson,
        }
    }

    pub fn operation_of(&self) -> (r: Operation)
        ensures
            r == self.operation(),
    {
        match self {
            Request::ReadConfig => Operation::ReadConfig,
            Request::UpdateConfig(_) => Operation::UpdateConfig,
            Request::GetToolsetConfig => Operation::GetToolsetConfig,
            Request::SetToolsetConfig(_) => Operation::SetToolsetConfig,
            Request::GetAvailableMods => Operation::GetAvailableMods,
            Request::GetEditableMods => Operation::GetEditableMods,
            Request::SelectMod(_) => Operation::SelectMod,
            Request::CreateMod(_) => Operation::CreateMod,
            Request::ListResources(_) => Operation::ListResources,
            Request::RenderImageFile(_) => Operation::RenderImageFile,
            Request::ReadImageMetadata(_) => Operation::ReadImageMetadata,
            Request::ReadSound(_) => Operation::ReadSound,
            Request::OpenJsonWithSchema(_) => Operation::OpenJsonWithSchema,
            Request::PersistJson(_) => Operation::PersistJson,
        }
    }

    /// The file or directory that the parameters name, where they name one.
    pub open spec fn path_param(&self) -> Option<Seq<char>> {
        match self {
            Request::ListResources(p) => Some(p.path@),
            Request::RenderImageFile(p) => Some(p.file@),
            Request::ReadImageMetadata(p) => Some(p.file@),
            Request::ReadSound(p) => Some(p.file@),
            Request::OpenJsonWithSchema(p) => Some(p.filename.0@),
            Request::PersistJson(p) => Some(p.filename.0@),
            _ => None,
        }
    }

    /// The parameters pass their operation's checks: a named path holds no
    /// `..`; a sound file ends in `.wav` or `.ogg`; a JSON file ends in `.json`.
    pub open spec fn is_valid(&self) -> bool {
        match self {
            Request::ListResources(p) => !has_parent_ref(p.path@),
            Request::RenderImageFile(p) => !has_parent_ref(p.file@),
            Request::ReadImageMetadata(p) => !has_parent_ref(p.file@),
            Request::ReadSound(p) => !has_parent_ref(p.file@) && sound_kind(lower_of(p.file@)) is Some,
            Request::OpenJsonWithSchema(p) => p.filename.is_valid(),
            Request::PersistJson(p) => p.filename.is_valid(),
            _ => true,
        }
    }

    pub fn validate(&self) -> (r: Result<(), Error>)
        ensures
            r is Ok <==> self.is_valid(),
            r matches Err(e) ==> e.kind == ErrorKind::Parameter,
    {
        match self {
            Request::ListResources(p) => p.validate(),
            Request::RenderImageFile(p) => p.validate(),
            Request::ReadImageMetadata(p) => check_no_parent_ref(p.file.as_str()),
            Request::ReadSound(p) => match p.validate() {
                Ok(_) => Ok(()),
                Err(e) => Err(e),
            },
            Request::OpenJsonWithSchema(p) => p.validate(),
            Request::PersistJson(p) => p.validate(),
            _ => Ok(()),
        }
    }
}

/// Parameters that name a path holding `..` never pass validation, so the
/// operation fails before it touches the filesystem.
pub proof fn lemma_parent_ref_rejected(req: Request)
    requires
        req.path_param() matches Some(p) && has_parent_ref(p),
    ensures
        !req.is_valid(),
{
}

/// The failure of an invocation as the caller sees it: the operation's name
/// and the parameters that were supplied, then the cause. The kind is kept.
pub fn invocation_failure(name: &str, params: &str, cause: Error) -> (r: Error)
    ensures
        r.kind == cause.kind,
        r.message@ == "failed to invoke "@ + name@ + " with params "@ + params@ + ": "@ + cause.message@,
{
    let mut context = "failed to invoke ".to_string();
    context.append(name);
    context.append(" with params ");
    context.append(params);
    cause.with_context(context.as_str())
}

} // verus!
