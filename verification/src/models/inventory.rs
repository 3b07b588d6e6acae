use vstd::prelude::*;

use crate::models::user::opt_text;

verus! {

/// A monetary value, held as the bit pattern of its 64-bit floating-point
/// representation. The library stores and returns amounts and never computes
/// with them, so the pattern is all it needs.
#[derive(Debug, Clone, Copy, PartialEq, Eq)]
pub struct Amount {
    pub bits: u64,
}

/// A product category.
#[derive(Debug, PartialEq)]
pub struct Category {
    pub id: i64,
    pub name: String,
}

/// What a [`Category`] stands for in contracts.
pub struct CategoryView {
    pub id: i64,
    pub name: Seq<char>,
}

impl View for Category {
    type V = CategoryView;

    open spec fn view(&self) -> CategoryView {
        CategoryView { id: self.id, name: self.name@ }
    }
}

impl DeepView for Category {
    type V = CategoryView;

    open spec fn deep_view(&self) -> CategoryView {
        self@
    }
}

impl Clone for Category {
    fn clone(&self) -> (copy: Self)
        ensures
            copy == *self,
    {
        Category { id: self.id, name: self.name.clone() }
    }
}

/// A product as the store keeps it.
#[derive(Debug, PartialEq)]
pub struct Product {
    pub id: i64,
    pub code: Option<String>,
    pub name: String,
    pub category_id: Option<i64>,
    pub price: Amount,
    pub cost: Amount,
    pub stock: i64,
    pub min_stock: Option<i64>,
    pub unit: Option<String>,
    pub image_url: Option<String>,
    pub is_active: bool,
    pub created_at: Option<chrono::NaiveDateTime>,
}

/// What a [`Product`] stands for in contracts.
pub struct ProductView {
    pub id: i64,
    pub code: Option<Seq<char>>,
    pub name: Seq<char>,
    pub category_id: Option<i64>,
    pub price: Amount,
    pub cost: Amount,
    pub stock: i64,
    pub min_stock: Option<i64>,
    pub unit: Option<Seq<char>>,
    pub image_url: Option<Seq<char>>,
    pub is_active: bool,
    pub created_at: Option<chrono::NaiveDateTime>,
}

impl ProductView {
    /// The row that a listing shows for this product when its category's name
    /// is `category_name`.
    pub open spec fn listed(self, category_name: Option<Seq<char>>) -> ProductWithCategoryView {
        ProductWithCategoryView {
            id: self.id,
            code: self.code,
            name: self.name,
            category_id: self.category_id,
            category_name,
            price: self.price,
            cost: self.cost,
            stock: self.stock,
            min_stock: self.min_stock,
            unit: self.unit,
            image_url: self.image_url,
            is_active: self.is_active,
            created_at: self.created_at,
        }
    }

    /// This row after an update has overwritten the fields that a caller
    /// chooses.
    pub open spec fn overwritten(self, fields: ProductFieldsView) -> ProductView {
        ProductView {
            code: fields.code,
            name: fields.name,
            category_id: fields.category_id,
            price: fields.price,
            cost: fields.cost,
            stock: fields.stock,
            unit: fields.unit,
            image_url: fields.image_url,
            ..self
        }
    }
}

impl View for Product {
    type V = ProductView;

    open spec fn view(&self) -> ProductView {
        ProductView {
            id: self.id,
            code: opt_text(self.code),
            name: self.name@,
            category_id: self.category_id,
            price: self.price,
            cost: self.cost,
            stock: self.stock,
            min_stock: self.min_stock,
            unit: opt_text(self.unit),
            image_url: opt_text(self.image_url),
            is_active: self.is_active,
            created_at: self.created_at,
        }
    }
}

impl DeepView for Product {
    type V = ProductView;

    open spec fn deep_view(&self) -> ProductView {
        self@
    }
}

impl Clone for Product {
    fn clone(&self) -> (copy: Self)
        ensures
            copy == *self,
    {
        Product {
            id: self.id,
            code: self.code.clone(),
            name: self.name.clone(),
            category_id: self.category_id,
            price: self.price,
            cost: self.cost,
            stock: self.stock,
            min_stock: self.min_stock,
            unit: self.unit.clone(),
            image_url: self.image_url.clone(),
            is_active: self.is_active,
            created_at: self.created_at,
        }
    }
}

/// A product as a listing shows it: the stored row and the name of its
/// category, if that category exists. Never stored.
#[derive(Debug, PartialEq)]
pub struct ProductWithCategory {
    pub id: i64,
    pub code: Option<String>,
    pub name: String,
    pub category_id: Option<i64>,
    pub category_name: Option<String>,
    pub price: Amount,
    pub cost: Amount,
    pub stock: i64,
    pub min_stock: Option<i64>,
    pub unit: Option<String>,
    pub image_url: Option<String>,
    pub is_active: bool,
    pub created_at: Option<chrono::NaiveDateTime>,
}

/// What a [`ProductWithCategory`] stands for in contracts.
pub struct ProductWithCategoryView {
    pub id: i64,
    pub code: Option<Seq<char>>,
    pub name: Seq<char>,
    pub category_id: Option<i64>,
    pub category_name: Option<Seq<char>>,
    pub price: Amount,
    pub cost: Amount,
    pub stock: i64,
    pub min_stock: Option<i64>,
    pub unit: Option<Seq<char>>,
    pub image_url: Option<Seq<char>>,
    pub is_active: bool,
    pub created_at: Option<chrono::NaiveDateTime>,
}

impl View for ProductWithCategory {
    type V = ProductWithCategoryView;

    open spec fn view(&self) -> ProductWithCategoryView {
        ProductWithCategoryView {
            id: self.id,
            code: opt_text(self.code),
            name: self.name@,
            category_id: self.category_id,
            category_name: opt_text(self.category_name),
            price: self.price,
            cost: self.cost,
            stock: self.stock,
            min_stock: self.min_stock,
            unit: opt_text(self.unit),
            image_url: opt_text(self.image_url),
            is_active: self.is_active,
            created_at: self.created_at,
        }
    }
}

impl DeepView for ProductWithCategory {
    type V = ProductWithCategoryView;

    open spec fn deep_view(&self) -> ProductWithCategoryView {
        self@
    }
}

/// The fields of a product that the caller chooses, on creation and on
/// update.
#[derive(Debug, PartialEq)]
pub struct ProductFields {
    pub code: Option<String>,
    pub name: String,
    pub category_id: Option<i64>,
    pub price: Amount,
    pub cost: Amount,
    pub stock: i64,
    pub unit: Option<String>,
    pub image_url: Option<String>,
}

/// What a [`ProductFields`] stands for in contracts.
pub struct ProductFieldsView {
    pub code: Option<Seq<char>>,
    pub name: Seq<char>,
    pub category_id: Option<i64>,
    pub price: Amount,
    pub cost: Amount,
    pub stock: i64,
    pub unit: Option<Seq<char>>,
    pub image_url: Option<Seq<char>>,
}

impl ProductFieldsView {
    /// The row that a store keeps for these fields under `id` when it leaves
    /// the minimum stock and the creation time unset.
    pub open spec fn stored(self, id: i64) -> ProductView {
        ProductView {
            id,
            code: self.code,
            name: self.name,
            category_id: self.category_id,
            price: self.price,
            cost: self.cost,
            stock: self.stock,
            min_stock: None,
            unit: self.unit,
            image_url: self.image_url,
            is_active: true,
            created_at: None,
        }
    }
}

impl View for ProductFields {
    type V = ProductFieldsView;

    open spec fn view(&self) -> ProductFieldsView {
        ProductFieldsView {
            code: opt_text(self.code),
            name: self.name@,
            category_id: self.category_id,
            price: self.price,
            cost: self.cost,
            stock: self.stock,
            unit: opt_text(self.unit),
            image_url: opt_text(self.image_url),
        }
    }
}

impl Clone for ProductFields {
    fn clone(&self) -> (copy: Self)
        ensures
            copy == *self,
    {
        ProductFields {
            code: self.code.clone(),
            name: self.name.clone(),
            category_id: self.category_id,
            price: self.price,
            cost: self.cost,
            stock: self.stock,
            unit: self.unit.clone(),
            image_url: self.image_url.clone(),
        }
    }
}

impl ProductFields {
    /// The row for these fields under `id`: active, with no minimum stock
    /// and no creation time.
    pub fn stored(self, id: i64) -> (product: Product)
        ensures
            product@ == self@.stored(id),
    {
        Product {
            id,
            code: self.code,
            name: self.name,
            category_id: self.category_id,
            price: self.price,
            cost: self.cost,
            stock: self.stock,
            min_stock: None,
            unit: self.unit,
            image_url: self.image_url,
            is_active: true,
            created_at: None,
        }
    }
}

impl Product {
    /// The row that a listing shows for this product when its category's
    /// name is `category_name`.
    pub fn listed(&self, category_name: Option<String>) -> (row: ProductWithCategory)
        ensures
            row@ == self@.listed(opt_text(category_name)),
    {
        ProductWithCategory {
            id: self.id,
            code: self.code.clone(),
            name: self.name.clone(),
            category_id: self.category_id,
            category_name,
            price: self.price,
            cost: self.cost,
            stock: self.stock,
            min_stock: self.min_stock,
            unit: self.unit.clone(),
            image_url: self.image_url.clone(),
            is_active: self.is_active,
            created_at: self.created_at,
        }
    }
}

} // verus!
