//! Vaults, items and fields.

use crate::text::texts;
use vstd::prelude::*;

verus! {

/// A vault.
#[derive(Clone, Debug)]
pub struct OpVault {
    pub id: String,
    pub name: String,
}

/// What an `OpVault` holds, as mathematical values.
pub struct OpVaultView {
    pub id: Seq<char>,
    pub name: Seq<char>,
}

impl View for OpVault {
    type V = OpVaultView;

    open spec fn view(&self) -> OpVaultView {
        OpVaultView { id: self.id@, name: self.name@ }
    }
}

/// The vault that an item lies in.
#[derive(Clone, Debug)]
pub struct OpItemVault {
    pub id: String,
    pub name: String,
}

/// What an `OpItemVault` holds, as mathematical values.
pub struct OpItemVaultView {
    pub id: Seq<char>,
    pub name: Seq<char>,
}

impl View for OpItemVault {
    type V = OpItemVaultView;

    open spec fn view(&self) -> OpItemVaultView {
        OpItemVaultView { id: self.id@, name: self.name@ }
    }
}

impl Default for OpItemVault {
    fn default() -> (r: Self)
        ensures
            r@ == (OpItemVaultView { id: Seq::empty(), name: Seq::empty() }),
    {
        OpItemVault { id: String::new(), name: String::new() }
    }
}

/// An item as a listing shows it.
#[derive(Clone, Debug)]
pub struct OpItem {
    pub id: String,
    pub title: String,
    pub category: String,
    pub vault: OpItemVault,
    pub tags: Vec<String>,
    pub created_at: String,
    pub updated_at: String,
}

/// What an `OpItem` holds, as mathematical values.
pub struct OpItemView {
    pub id: Seq<char>,
    pub title: Seq<char>,
    pub category: Seq<char>,
    pub vault: OpItemVaultView,
    pub tags: Seq<Seq<char>>,
    pub created_at: Seq<char>,
    pub updated_at: Seq<char>,
}

impl View for OpItem {
    type V = OpItemView;

    open spec fn view(&self) -> OpItemView {
        OpItemView {
            id: self.id@,
            title: self.title@,
            category: self.category@,
            vault: self.vault@,
            tags: texts(self.tags@),
            created_at: self.created_at@,
            updated_at: self.updated_at@,
        }
    }
}

/// The section that a field stands in.
#[derive(Clone, Debug)]
pub struct OpFieldSection {
    pub id: String,
    pub label: String,
}

/// What an `OpFieldSection` holds, as mathematical values.
pub struct OpFieldSectionView {
    pub id: Seq<char>,
    pub label: Seq<char>,
}

impl View for OpFieldSection {
    type V = OpFieldSectionView;

    open spec fn view(&self) -> OpFieldSectionView {
        OpFieldSectionView { id: self.id@, label: self.label@ }
    }
}

/// The view of an optional section.
pub open spec fn section_view(o: Option<OpFieldSection>) -> Option<OpFieldSectionView> {
    match o {
        Some(s) => Some(s@),
        None => None,
    }
}

/// A field of an item.
#[derive(Clone, Debug)]
pub struct OpField {
    pub id: String,
    pub label: String,
    pub value: String,
    pub field_type: String,
    pub section: Option<OpFieldSection>,
}

/// What an `OpField` holds, as mathematical values.
pub struct OpFieldView {
    pub id: Seq<char>,
    pub label: Seq<char>,
    pub value: Seq<char>,
    pub field_type: Seq<char>,
    pub section: Option<OpFieldSectionView>,
}

impl View for OpField {
    type V = OpFieldView;

    open spec fn view(&self) -> OpFieldView {
        OpFieldView {
            id: self.id@,
            label: self.label@,
            value: self.value@,
            field_type: self.field_type@,
            section: section_view(self.section),
        }
    }
}

/// The views of a list of fields.
pub open spec fn field_views(fields: Seq<OpField>) -> Seq<OpFieldView> {
    fields.map_values(|f: OpField| f@)
}

/// An item with its fields.
#[derive(Clone, Debug)]
pub struct OpItemDetail {
    pub id: String,
    pub title: String,
    pub category: String,
    pub fields: Vec<OpField>,
}

/// What an `OpItemDetail` holds, as mathematical values.
pub struct OpItemDetailView {
    pub id: Seq<char>,
    pub title: Seq<char>,
    pub category: Seq<char>,
    pub fields: Seq<OpFieldView>,
}

impl View for OpItemDetail {
    type V = OpItemDetailView;

    open spec fn view(&self) -> OpItemDetailView {
        OpItemDetailView {
            id: self.id@,
            title: self.title@,
            category: self.category@,
            fields: field_views(self.fields@),
        }
    }
}

/// Whether the command-line tool is there, and which.
#[derive(Clone, Debug)]
pub struct OpStatus {
    pub cli_installed: bool,
    pub cli_version: Option<String>,
    pub signed_in: bool,
    pub accounts: Vec<String>,
}

} // verus!
