//! User groups and the group store.
use vstd::prelude::*;

use crate::collections::{GroupIndexMap, group_map_contents, group_map_get, group_map_insert, group_map_len, group_map_new, group_map_swap_remove};

verus! {

/// A user group, with the factors and limits it grants.
#[derive(Clone, Debug)]
pub struct Group {
    pub id: i32,
    pub slug: String,
    pub download_slots: Option<u32>,
    pub is_immune: bool,
    pub download_factor: u8,
    pub upload_factor: u8,
}

/// A group row as loaded from the database.
#[derive(Clone, Debug)]
pub struct DBImportGroup {
    pub id: i32,
    pub slug: String,
    pub download_slots: Option<u32>,
    pub is_immune: bool,
    pub is_freeleech: bool,
    pub is_double_upload: bool,
}

/// A group as sent by the site to be inserted or updated.
#[derive(Clone, Debug)]
pub struct APIInsertGroup {
    pub id: i32,
    pub slug: String,
    pub download_slots: Option<u32>,
    pub is_immune: bool,
    pub is_freeleech: bool,
    pub is_double_upload: bool,
}

/// A group as sent by the site to be removed.
#[derive(Clone, Copy, Debug)]
pub struct APIRemoveGroup {
    pub id: i32,
}

/// Download factor of a group: freeleech groups pay nothing.
pub open spec fn group_download_factor(is_freeleech: bool) -> u8 {
    if is_freeleech { 0 } else { 100 }
}

/// Upload factor of a group: double upload groups earn twice.
pub open spec fn group_upload_factor(is_double_upload: bool) -> u8 {
    if is_double_upload { 200 } else { 100 }
}

impl Group {
    /// A copy of the group.
    pub fn duplicate(&self) -> (r: Group)
        ensures
            r == *self,
    {
        Group {
            id: self.id,
            slug: self.slug.clone(),
            download_slots: self.download_slots,
            is_immune: self.is_immune,
            download_factor: self.download_factor,
            upload_factor: self.upload_factor,
        }
    }

    /// The group a database row describes.
    pub fn from_db(value: DBImportGroup) -> (r: Group)
        ensures
            r.id == value.id,
            r.slug@ == value.slug@,
            r.download_slots == value.download_slots,
            r.is_immune == value.is_immune,
            r.download_factor == group_download_factor(value.is_freeleech),
            r.upload_factor == group_upload_factor(value.is_double_upload),
    {
        Group {
            id: value.id,
            slug: value.slug,
            download_slots: value.download_slots,
            is_immune: value.is_immune,
            download_factor: if value.is_freeleech { 0 } else { 100 },
            upload_factor: if value.is_double_upload { 200 } else { 100 },
        }
    }

    /// The group an API insert request describes.
    pub fn from_api(value: APIInsertGroup) -> (r: Group)
        ensures
            r.id == value.id,
            r.slug@ == value.slug@,
            r.download_slots == value.download_slots,
            r.is_immune == value.is_immune,
            r.download_factor == group_download_factor(value.is_freeleech),
            r.upload_factor == group_upload_factor(value.is_double_upload),
    {
        Group {
            id: value.id,
            slug: value.slug,
            download_slots: value.download_slots,
            is_immune: value.is_immune,
            download_factor: if value.is_freeleech { 0 } else { 100 },
            upload_factor: if value.is_double_upload { 200 } else { 100 },
        }
    }
}

/// All groups, by id.
pub struct GroupStore {
    inner: GroupIndexMap,
}

impl View for GroupStore {
    type V = Map<i32, Group>;

    closed spec fn view(&self) -> Map<i32, Group> {
        group_map_contents(self.inner)
    }
}

impl GroupStore {
    /// An empty group store.
    pub fn new() -> (r: GroupStore)
        ensures
            r@ == Map::<i32, Group>::empty(),
    {
        GroupStore { inner: group_map_new() }
    }

    /// The group with the given id, if any.
    pub fn get(&self, id: i32) -> (r: Option<&Group>)
        ensures
            r is Some <==> self@.dom().contains(id),
            r matches Some(g) ==> *g == self@[id],
    {
        group_map_get(&self.inner, id)
    }

    /// Stores `group` under `id`, returning the group it replaced.
    pub fn insert(&mut self, id: i32, group: Group) -> (r: Option<Group>)
        ensures
            r == old(self)@.get(id),
            final(self)@ == old(self)@.insert(id, group),
    {
        group_map_insert(&mut self.inner, id, group)
    }

    /// The number of groups.
    pub fn len(&self) -> (r: usize)
        ensures
            r == self@.len(),
    {
        group_map_len(&self.inner)
    }

    /// Inserts or replaces the group an API request describes.
    pub fn upsert(&mut self, group: APIInsertGroup)
        ensures
            final(self)@.dom() == old(self)@.dom().insert(group.id),
            forall|id: i32| id != group.id ==> final(self)@.get(id) == old(self)@.get(id),
            final(self)@[group.id].id == group.id,
            final(self)@[group.id].slug@ == group.slug@,
            final(self)@[group.id].download_slots == group.download_slots,
            final(self)@[group.id].is_immune == group.is_immune,
            final(self)@[group.id].download_factor == group_download_factor(group.is_freeleech),
            final(self)@[group.id].upload_factor == group_upload_factor(group.is_double_upload),
    {
        let id = group.id;
        let g = Group::from_api(group);
        self.insert(id, g);
    }

    /// Removes the group an API request names.
    pub fn destroy(&mut self, group: APIRemoveGroup)
        ensures
            final(self)@ == old(self)@.remove(group.id),
    {
        group_map_swap_remove(&mut self.inner, group.id);
    }
}

} // verus!
