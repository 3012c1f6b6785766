//! Request and response bodies for projects, columns, labels and states, and
//! the patch rules their updates obey.

use vstd::prelude::*;
use crate::models::{LabelModel, ProjectColumnModel, ProjectColumnView, ProjectModel, ProjectView, StateModel};
use crate::permissions::Permissions;

verus! {

/// A project as presented to clients; labels and columns are attached only
/// where the endpoint loads them.
#[derive(Debug)]
pub struct ProjectMessage {
    pub id: u128,
    pub name: String,
    pub owner_id: u128,
    pub public: bool,
    pub labels: Option<Vec<LabelMessage>>,
    pub columns: Option<Vec<ProjectColumnMessage>>,
}

impl ProjectMessage {
    pub fn from_model(value: ProjectModel) -> (r: Self)
        ensures
            r.id == value.id,
            r.name == value.name,
            r.owner_id == value.owner_id,
            r.public == value.public,
            r.labels is None,
            r.columns is None,
    {
        Self {
            id: value.id,
            name: value.name,
            owner_id: value.owner_id,
            public: value.public,
            labels: None,
            columns: None,
        }
    }
}

/// Body of a project creation request.
#[derive(Debug)]
pub struct CreateProjectMessage {
    pub name: String,
    pub public: bool,
}

impl CreateProjectMessage {
    /// The created project, owned by the caller; the identifier is left for
    /// the store to assign.
    pub fn to_model(self, owner_id: u128) -> (r: ProjectModel)
        ensures
            r@ == (ProjectView { id: 0, name: self.name@, owner_id: owner_id, public: self.public }),
    {
        ProjectModel { id: 0, name: self.name, owner_id, public: self.public }
    }
}

/// Body of a project update: absent fields are left unchanged.
#[derive(Debug)]
pub struct UpdateProjectMessage {
    pub name: Option<String>,
    pub public: Option<bool>,
    pub owner_id: Option<u128>,
}

impl UpdateProjectMessage {
    /// The project after the patch: present fields overwrite, absent fields
    /// keep their stored value, and the identifier never changes.
    pub open spec fn spec_apply(self, p: ProjectView) -> ProjectView {
        ProjectView {
            id: p.id,
            name: match self.name {
                Some(n) => n@,
                None => p.name,
            },
            owner_id: match self.owner_id {
                Some(o) => o,
                None => p.owner_id,
            },
            public: match self.public {
                Some(b) => b,
                None => p.public,
            },
        }
    }

    /// The permission this patch demands: visibility or ownership changes are
    /// the owner's alone, anything else takes an editor.
    pub open spec fn spec_requirements(self) -> Permissions {
        if self.public is Some || self.owner_id is Some {
            Permissions::Owner
        } else {
            Permissions::Editor
        }
    }

    pub fn update_project(self, mod_proj: &mut ProjectModel)
        ensures
            final(mod_proj)@ == self.spec_apply(old(mod_proj)@),
    {
        let UpdateProjectMessage { name, public, owner_id } = self;
        if let Some(v) = name {
            mod_proj.name = v;
        }
        if let Some(v) = owner_id {
            mod_proj.owner_id = v;
        }
        if let Some(v) = public {
            mod_proj.public = v;
        }
        proof {
            assert(mod_proj@ =~= self.spec_apply(old(mod_proj)@));
        }
    }

    pub fn get_requirements(&self) -> (r: Permissions)
        ensures
            r == self.spec_requirements(),
    {
        if self.public.is_some() || self.owner_id.is_some() {
            Permissions::Owner
        } else {
            Permissions::Editor
        }
    }
}

/// A column as presented to clients.
#[derive(Debug)]
pub struct ProjectColumnMessage {
    pub id: u128,
    pub name: String,
    pub card_limit: i32,
    pub project_id: u128,
    pub index: i32,
}

impl ProjectColumnMessage {
    pub fn from_model(value: ProjectColumnModel) -> (r: Self)
        ensures
            r.id == value.id,
            r.name == value.name,
            r.card_limit == value.card_limit,
            r.project_id == value.project_id,
            r.index == value.index,
    {
        Self {
            id: value.id,
            name: value.name,
            card_limit: value.card_limit,
            project_id: value.project_id,
            index: value.index,
        }
    }
}

/// Body of a column creation request; an absent card limit means none.
#[derive(Debug)]
pub struct CreateProjectColumnMessage {
    pub name: String,
    pub card_limit: Option<i32>,
    pub index: i32,
}

impl CreateProjectColumnMessage {
    pub fn to_model(self, project_id: u128) -> (r: ProjectColumnModel)
        ensures
            r@ == (ProjectColumnView {
                id: 0,
                name: self.name@,
                project_id: project_id,
                index: self.index,
                card_limit: match self.card_limit {
                    Some(l) => l,
                    None => 0,
                },
            }),
    {
        let card_limit = match self.card_limit {
            Some(l) => l,
            None => 0,
        };
        ProjectColumnModel { id: 0, name: self.name, project_id, index: self.index, card_limit }
    }
}

/// Body of a column update: absent fields are left unchanged.
#[derive(Debug)]
pub struct UpdateProjectColumnMessage {
    pub name: Option<String>,
    pub index: Option<i32>,
    pub card_limit: Option<i32>,
}

impl UpdateProjectColumnMessage {
    /// The column after the patch: present fields overwrite, the identifier
    /// and owning project never change.
    pub open spec fn spec_apply(self, c: ProjectColumnView) -> ProjectColumnView {
        ProjectColumnView {
            id: c.id,
            project_id: c.project_id,
            name: match self.name {
                Some(n) => n@,
                None => c.name,
            },
            index: match self.index {
                Some(i) => i,
                None => c.index,
            },
            card_limit: match self.card_limit {
                Some(l) => l,
                None => c.card_limit,
            },
        }
    }

    pub fn update_model(self, mod_column: &mut ProjectColumnModel)
        ensures
            final(mod_column)@ == self.spec_apply(old(mod_column)@),
    {
        let UpdateProjectColumnMessage { name, index, card_limit } = self;
        if let Some(name) = name {
            mod_column.name = name;
        }
        if let Some(index) = index {
            mod_column.index = index;
        }
        if let Some(card_limit) = card_limit {
            mod_column.card_limit = card_limit;
        }
        proof {
            assert(mod_column@ =~= self.spec_apply(old(mod_column)@));
        }
    }
}

/// A label as presented to clients.
#[derive(Debug)]
pub struct LabelMessage {
    pub id: u128,
    pub name: String,
    pub project_id: u128,
}

impl LabelMessage {
    pub fn from_model(value: LabelModel) -> (r: Self)
        ensures
            r.id == value.id,
            r.name == value.name,
            r.project_id == value.project_id,
    {
        LabelMessage { id: value.id, name: value.name, project_id: value.project_id }
    }
}

/// Body of a label creation request.
#[derive(Debug)]
pub struct CreateLabelMessage {
    pub name: String,
}

impl CreateLabelMessage {
    pub fn to_model(self, project_id: u128) -> (r: LabelModel)
        ensures
            r.id == 0,
            r.name == self.name,
            r.project_id == project_id,
    {
        LabelModel { id: 0, name: self.name, project_id }
    }
}

/// Body of a label update; a label has nothing but its name to change.
#[derive(Debug)]
pub struct UpdateLabelMessage {
    pub name: String,
}

impl UpdateLabelMessage {
    pub fn update_model(self, mod_label: &mut LabelModel)
        ensures
            final(mod_label).name == self.name,
            final(mod_label).id == old(mod_label).id,
            final(mod_label).project_id == old(mod_label).project_id,
    {
        mod_label.name = self.name;
    }
}

/// A workflow state as presented to clients.
#[derive(Debug)]
pub struct StateMessage {
    pub id: u128,
    pub name: String,
    pub project_id: u128,
}

impl StateMessage {
    pub fn from_model(value: StateModel) -> (r: Self)
        ensures
            r.id == value.id,
            r.name == value.name,
            r.project_id == value.project_id,
    {
        Self { id: value.id, name: value.name, project_id: value.project_id }
    }
}

/// Body of a state creation request.
#[derive(Debug)]
pub struct CreateStateMessage {
    pub name: String,
}

impl CreateStateMessage {
    pub fn to_model(self, project_id: u128) -> (r: StateModel)
        ensures
            r.id == 0,
            r.name == self.name,
            r.project_id == project_id,
    {
        StateModel { id: 0, name: self.name, project_id }
    }
}

/// Body of a state update; a state has nothing but its name to change.
#[derive(Debug)]
pub struct UpdateStateMessage {
    pub name: String,
}

impl UpdateStateMessage {
    pub fn update_model(self, model: &mut StateModel)
        ensures
            final(model).name == self.name,
            final(model).id == old(model).id,
            final(model).project_id == old(model).project_id,
    {
        model.name = self.name;
    }
}

} // verus!
