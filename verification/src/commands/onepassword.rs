//! Vaults and items in the form that a user interface shows.

use crate::onepassword::types::OpItem;
use crate::onepassword::types::OpItemView;
use crate::onepassword::types::OpVault;
use crate::onepassword::types::OpVaultView;
use crate::text::clone_texts;
use crate::text::texts;
use vstd::prelude::*;

verus! {

/// A vault, for display.
#[derive(Debug)]
pub struct FrontendVault {
    pub id: String,
    pub name: String,
}

/// What a `FrontendVault` holds, as mathematical values.
pub struct FrontendVaultView {
    pub id: Seq<char>,
    pub name: Seq<char>,
}

impl View for FrontendVault {
    type V = FrontendVaultView;

    open spec fn view(&self) -> FrontendVaultView {
        FrontendVaultView { id: self.id@, name: self.name@ }
    }
}

/// An item of a vault, for display.
#[derive(Debug)]
pub struct FrontendVaultItem {
    pub id: String,
    pub title: String,
    pub category: String,
    pub vault_id: String,
    pub vault_name: String,
    pub tags: Vec<String>,
    pub created_at: String,
    pub updated_at: String,
}

/// What a `FrontendVaultItem` holds, as mathematical values.
pub struct FrontendVaultItemView {
    pub id: Seq<char>,
    pub title: Seq<char>,
    pub category: Seq<char>,
    pub vault_id: Seq<char>,
    pub vault_name: Seq<char>,
    pub tags: Seq<Seq<char>>,
    pub created_at: Seq<char>,
    pub updated_at: Seq<char>,
}

impl View for FrontendVaultItem {
    type V = FrontendVaultItemView;

    open spec fn view(&self) -> FrontendVaultItemView {
        FrontendVaultItemView {
            id: self.id@,
            title: self.title@,
            category: self.category@,
            vault_id: self.vault_id@,
            vault_name: self.vault_name@,
            tags: texts(self.tags@),
            created_at: self.created_at@,
            updated_at: self.updated_at@,
        }
    }
}

/// What is shown of a vault.
pub open spec fn shown_vault(vault: OpVaultView) -> FrontendVaultView {
    FrontendVaultView { id: vault.id, name: vault.name }
}

/// What is shown of an item: its vault's id and name stand beside its own.
pub open spec fn shown_item(item: OpItemView) -> FrontendVaultItemView {
    FrontendVaultItemView {
        id: item.id,
        title: item.title,
        category: item.category,
        vault_id: item.vault.id,
        vault_name: item.vault.name,
        tags: item.tags,
        created_at: item.created_at,
        updated_at: item.updated_at,
    }
}

/// The vaults of a listing, for display, in the listing's order.
pub fn list_vaults(vaults: &Vec<OpVault>) -> (r: Vec<FrontendVault>)
    ensures
        r@.len() == vaults@.len(),
        forall|i: int| 0 <= i < vaults@.len() ==> (#[trigger] r@[i])@ == shown_vault(vaults@[i]@),
{
    let mut out: Vec<FrontendVault> = Vec::new();
    let mut i: usize = 0;
    while i < vaults.len()
        invariant
            i <= vaults@.len(),
            out@.len() == i,
            forall|j: int| 0 <= j < i ==> (#[trigger] out@[j])@ == shown_vault(vaults@[j]@),
        decreases vaults@.len() - i,
    {
        let v = &vaults[i];
        out.push(FrontendVault { id: v.id.clone(), name: v.name.clone() });
        i += 1;
    }
    out
}

/// The items of a listing, for display, in the listing's order.
pub fn list_vault_items(items: &Vec<OpItem>) -> (r: Vec<FrontendVaultItem>)
    ensures
        r@.len() == items@.len(),
        forall|i: int| 0 <= i < items@.len() ==> (#[trigger] r@[i])@ == shown_item(items@[i]@),
{
    let mut out: Vec<FrontendVaultItem> = Vec::new();
    let mut i: usize = 0;
    while i < items.len()
        invariant
            i <= items@.len(),
            out@.len() == i,
            forall|j: int| 0 <= j < i ==> (#[trigger] out@[j])@ == shown_item(items@[j]@),
        decreases items@.len() - i,
    {
        let item = &items[i];
        out.push(
            FrontendVaultItem {
                id: item.id.clone(),
                title: item.title.clone(),
                category: item.category.clone(),
                vault_id: item.vault.id.clone(),
                vault_name: item.vault.name.clone(),
                tags: clone_texts(&item.tags),
                created_at: item.created_at.clone(),
                updated_at: item.updated_at.clone(),
            },
        );
        i += 1;
    }
    out
}

} // verus!
