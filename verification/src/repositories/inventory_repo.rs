use vstd::prelude::*;

use crate::errors::{result_view, StorageError};
use crate::models::inventory::{Amount, Category, CategoryView, ProductFields, ProductFieldsView};
use crate::repositories::user_repo::{opt_str_text, owned_text};
use crate::storage::query::{Query, QueryView};
use crate::storage::reply::Reply;

verus! {

/// What the caller holds after an insert of a category.
pub open spec fn category_created_view(name: Seq<char>, inserted: Result<i64, Seq<char>>) -> Result<
    CategoryView,
    Seq<char>,
> {
    match inserted {
        Ok(id) => Ok(CategoryView { id, name }),
        Err(text) => Err(text),
    }
}

/// Product categories and products.
#[derive(Debug, Clone, Copy)]
pub struct InventoryRepository {}

impl InventoryRepository {
    /// The repository. It holds nothing: the store is the host's.
    pub fn new() -> Self {
        InventoryRepository {  }
    }

    /// All categories.
    pub fn get_categories(&self) -> (query: Query)
        ensures
            query@ == QueryView::FindAllCategories,
    {
        Query::FindAllCategories
    }

    /// A new category with this name.
    pub fn create_category(&self, name: &str) -> (query: Query)
        ensures
            query@ == (QueryView::InsertCategory { name: name@ }),
    {
        Query::InsertCategory { name: name.to_string() }
    }

    /// The created category, from its name and the store's answer to the
    /// insert.
    pub fn category_created(&self, name: &str, reply: Reply) -> (created: Result<
        Category,
        StorageError,
    >)
        ensures
            result_view(created) == category_created_view(name@, reply@.as_inserted()),
    {
        match reply.into_inserted() {
            Ok(id) => Ok(Category { id, name: name.to_string() }),
            Err(error) => Err(error),
        }
    }

    /// The category is renamed. An id that no category has changes nothing
    /// and is no error.
    pub fn update_category(&self, id: i64, name: &str) -> (query: Query)
        ensures
            query@ == (QueryView::UpdateCategory { id, name: name@ }),
    {
        Query::UpdateCategory { id, name: name.to_string() }
    }

    /// The category's row is removed. Products that name it keep the id and
    /// are listed without a category name.
    pub fn delete_category(&self, id: i64) -> (query: Query)
        ensures
            query@ == (QueryView::DeleteCategory { id }),
    {
        Query::DeleteCategory { id }
    }

    /// The active products, each with the name of its category where that
    /// category exists.
    pub fn get_products(&self) -> (query: Query)
        ensures
            query@ == QueryView::FindAllProducts,
    {
        Query::FindAllProducts
    }

    /// A new product with these fields. The category is not looked up. The
    /// store makes the product active and gives it an id, which is what the
    /// answer to this query holds.
    pub fn create_product(
        &self,
        code: Option<&str>,
        name: &str,
        category_id: Option<i64>,
        price: Amount,
        cost: Amount,
        stock: i64,
        unit: Option<&str>,
        image_url: Option<&str>,
    ) -> (query: Query)
        ensures
            query@ == (QueryView::InsertProduct {
                product: ProductFieldsView {
                    code: opt_str_text(code),
                    name: name@,
                    category_id,
                    price,
                    cost,
                    stock,
                    unit: opt_str_text(unit),
                    image_url: opt_str_text(image_url),
                },
            }),
    {
        Query::InsertProduct {
            product: ProductFields {
                code: owned_text(code),
                name: name.to_string(),
                category_id,
                price,
                cost,
                stock,
                unit: owned_text(unit),
                image_url: owned_text(image_url),
            },
        }
    }

    /// The fields of the product that a caller chooses are overwritten, each
    /// with what is given. An id that no product has changes nothing and is
    /// no error.
    pub fn update_product(
        &self,
        id: i64,
        code: Option<&str>,
        name: &str,
        category_id: Option<i64>,
        price: Amount,
        cost: Amount,
        stock: i64,
        unit: Option<&str>,
        image_url: Option<&str>,
    ) -> (query: Query)
        ensures
            query@ == (QueryView::UpdateProduct {
                id,
                product: ProductFieldsView {
                    code: opt_str_text(code),
                    name: name@,
                    category_id,
                    price,
                    cost,
                    stock,
                    unit: opt_str_text(unit),
                    image_url: opt_str_text(image_url),
                },
            }),
    {
        Query::UpdateProduct {
            id,
            product: ProductFields {
                code: owned_text(code),
                name: name.to_string(),
                category_id,
                price,
                cost,
                stock,
                unit: owned_text(unit),
                image_url: owned_text(image_url),
            },
        }
    }

    /// The product is marked inactive. Its row stays.
    pub fn soft_delete_product(&self, id: i64) -> (query: Query)
        ensures
            query@ == (QueryView::SoftDeleteProduct { id }),
    {
        Query::SoftDeleteProduct { id }
    }
}

} // verus!
