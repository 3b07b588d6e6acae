//! Categories and products. Every operation here is one exchange with the
//! store.

use vstd::prelude::*;

use crate::errors::pass_through;
use crate::flow::{done_with, ChangeFlow, ChangeView, Flow, Step, StepView};
use crate::models::inventory::{
    Amount, Category, CategoryView, ProductFields, ProductFieldsView, ProductWithCategory,
    ProductWithCategoryView,
};
use crate::repositories::inventory_repo::{category_created_view, InventoryRepository};
use crate::repositories::user_repo::{opt_str_text, owned_text};
use crate::storage::query::{Query, QueryView};
use crate::storage::reply::{Reply, ReplyView};

verus! {

/// A listing of all categories that waits for the store.
#[derive(Debug)]
pub struct ListCategoriesFlow {}

/// What a [`ListCategoriesFlow`] stands for in contracts.
pub struct ListCategoriesView {}

impl View for ListCategoriesFlow {
    type V = ListCategoriesView;

    open spec fn view(&self) -> ListCategoriesView {
        ListCategoriesView {  }
    }
}

impl ListCategoriesView {
    /// An upper bound on the exchanges that the operation still needs.
    pub open spec fn steps_left(self) -> nat {
        1
    }

    /// The query that the flow waits on.
    pub open spec fn pending(self) -> QueryView {
        QueryView::FindAllCategories
    }

    /// The step that follows the store's reply: the categories it listed.
    pub open spec fn after(self, reply: ReplyView) -> StepView<
        ListCategoriesView,
        Seq<CategoryView>,
    > {
        done_with(reply.as_categories())
    }
}

impl Flow for ListCategoriesFlow {
    type Output = Vec<Category>;

    open spec fn steps_left(&self) -> nat {
        self@.steps_left()
    }

    open spec fn asks(&self) -> QueryView {
        self@.pending()
    }

    open spec fn allows(&self, reply: ReplyView, step: Step<ListCategoriesFlow, Vec<Category>>) -> bool {
        step@ == self@.after(reply)
    }

    /// The query to send to the store.
    fn query(&self) -> (query: Query)
        ensures
            query@ == self@.pending(),
    {
        InventoryRepository::new().get_categories()
    }

    /// Takes the store's reply and ends the operation.
    fn resume(self, reply: Reply) -> (step: Step<ListCategoriesFlow, Vec<Category>>)
        ensures
            step@ == self@.after(reply@),
    {
        Step::Done(pass_through(reply.into_categories()))
    }
}

/// The creation of a category that waits for the store.
#[derive(Debug)]
pub struct CreateCategoryFlow {
    pub name: String,
}

/// What a [`CreateCategoryFlow`] stands for in contracts.
pub struct CreateCategoryView {
    pub name: Seq<char>,
}

impl View for CreateCategoryFlow {
    type V = CreateCategoryView;

    open spec fn view(&self) -> CreateCategoryView {
        CreateCategoryView { name: self.name@ }
    }
}

impl CreateCategoryView {
    /// An upper bound on the exchanges that the operation still needs.
    pub open spec fn steps_left(self) -> nat {
        1
    }

    /// The query that the flow waits on.
    pub open spec fn pending(self) -> QueryView {
        QueryView::InsertCategory { name: self.name }
    }

    /// The step that follows the store's reply: the category under the id
    /// that the store assigned.
    pub open spec fn after(self, reply: ReplyView) -> StepView<CreateCategoryView, CategoryView> {
        done_with(category_created_view(self.name, reply.as_inserted()))
    }
}

impl Flow for CreateCategoryFlow {
    type Output = Category;

    open spec fn steps_left(&self) -> nat {
        self@.steps_left()
    }

    open spec fn asks(&self) -> QueryView {
        self@.pending()
    }

    open spec fn allows(&self, reply: ReplyView, step: Step<CreateCategoryFlow, Category>) -> bool {
        step@ == self@.after(reply)
    }

    /// The query to send to the store.
    fn query(&self) -> (query: Query)
        ensures
            query@ == self@.pending(),
    {
        InventoryRepository::new().create_category(self.name.as_str())
    }

    /// Takes the store's reply and ends the operation.
    fn resume(self, reply: Reply) -> (step: Step<CreateCategoryFlow, Category>)
        ensures
            step@ == self@.after(reply@),
    {
        Step::Done(
            pass_through(InventoryRepository::new().category_created(self.name.as_str(), reply)),
        )
    }
}

/// A listing of the active products that waits for the store.
#[derive(Debug)]
pub struct ListProductsFlow {}

/// What a [`ListProductsFlow`] stands for in contracts.
pub struct ListProductsView {}

impl View for ListProductsFlow {
    type V = ListProductsView;

    open spec fn view(&self) -> ListProductsView {
        ListProductsView {  }
    }
}

impl ListProductsView {
    /// An upper bound on the exchanges that the operation still needs.
    pub open spec fn steps_left(self) -> nat {
        1
    }

    /// The query that the flow waits on.
    pub open spec fn pending(self) -> QueryView {
        QueryView::FindAllProducts
    }

    /// The step that follows the store's reply: the products it listed.
    pub open spec fn after(self, reply: ReplyView) -> StepView<
        ListProductsView,
        Seq<ProductWithCategoryView>,
    > {
        done_with(reply.as_products())
    }
}

impl Flow for ListProductsFlow {
    type Output = Vec<ProductWithCategory>;

    open spec fn steps_left(&self) -> nat {
        self@.steps_left()
    }

    open spec fn asks(&self) -> QueryView {
        self@.pending()
    }

    open spec fn allows(&self, reply: ReplyView, step: Step<ListProductsFlow, Vec<ProductWithCategory>>) -> bool {
        step@ == self@.after(reply)
    }

    /// The query to send to the store.
    fn query(&self) -> (query: Query)
        ensures
            query@ == self@.pending(),
    {
        InventoryRepository::new().get_products()
    }

    /// Takes the store's reply and ends the operation.
    fn resume(self, reply: Reply) -> (step: Step<ListProductsFlow, Vec<ProductWithCategory>>)
        ensures
            step@ == self@.after(reply@),
    {
        Step::Done(pass_through(reply.into_products()))
    }
}

/// The creation of a product that waits for the store.
#[derive(Debug)]
pub struct CreateProductFlow {
    pub product: ProductFields,
}

/// What a [`CreateProductFlow`] stands for in contracts.
pub struct CreateProductView {
    pub product: ProductFieldsView,
}

impl View for CreateProductFlow {
    type V = CreateProductView;

    open spec fn view(&self) -> CreateProductView {
        CreateProductView { product: self.product@ }
    }
}

impl CreateProductView {
    /// An upper bound on the exchanges that the operation still needs.
    pub open spec fn steps_left(self) -> nat {
        1
    }

    /// The query that the flow waits on.
    pub open spec fn pending(self) -> QueryView {
        QueryView::InsertProduct { product: self.product }
    }

    /// The step that follows the store's reply: the id that the store
    /// assigned.
    pub open spec fn after(self, reply: ReplyView) -> StepView<CreateProductView, i64> {
        done_with(reply.as_inserted())
    }
}

impl Flow for CreateProductFlow {
    type Output = i64;

    open spec fn steps_left(&self) -> nat {
        self@.steps_left()
    }

    open spec fn asks(&self) -> QueryView {
        self@.pending()
    }

    open spec fn allows(&self, reply: ReplyView, step: Step<CreateProductFlow, i64>) -> bool {
        step@ == self@.after(reply)
    }

    /// The query to send to the store.
    fn query(&self) -> (query: Query)
        ensures
            query@ == self@.pending(),
    {
        Query::InsertProduct { product: self.product.clone() }
    }

    /// Takes the store's reply and ends the operation.
    fn resume(self, reply: Reply) -> (step: Step<CreateProductFlow, i64>)
        ensures
            step@ == self@.after(reply@),
    {
        Step::Done(pass_through(reply.into_inserted()))
    }
}

/// Categories and products.
#[derive(Debug, Clone, Copy)]
pub struct InventoryService {
    pub inventory_repo: InventoryRepository,
}

impl InventoryService {
    /// The service, with its repository.
    pub fn new() -> Self {
        InventoryService { inventory_repo: InventoryRepository::new() }
    }

    /// Starts a listing of all categories.
    pub fn get_categories(&self) -> (step: Step<ListCategoriesFlow, Vec<Category>>)
        ensures
            step@ == StepView::<ListCategoriesView, Seq<CategoryView>>::Ask(ListCategoriesView {  }),
    {
        Step::Ask(ListCategoriesFlow {  })
    }

    /// Starts the creation of a category.
    pub fn create_category(&self, name: &str) -> (step: Step<CreateCategoryFlow, Category>)
        ensures
            step@ == StepView::<CreateCategoryView, CategoryView>::Ask(
                CreateCategoryView { name: name@ },
            ),
    {
        Step::Ask(CreateCategoryFlow { name: name.to_string() })
    }

    /// Starts the renaming of a category. An id that no category has changes
    /// nothing and is no error.
    pub fn update_category(&self, id: i64, name: &str) -> (step: Step<ChangeFlow, ()>)
        ensures
            step@ == StepView::<ChangeView, ()>::Ask(
                ChangeView { query: QueryView::UpdateCategory { id, name: name@ } },
            ),
    {
        Step::Ask(ChangeFlow { query: self.inventory_repo.update_category(id, name) })
    }

    /// Starts the removal of a category. Its row goes; products that name it
    /// stay as they are.
    pub fn delete_category(&self, id: i64) -> (step: Step<ChangeFlow, ()>)
        ensures
            step@ == StepView::<ChangeView, ()>::Ask(
                ChangeView { query: QueryView::DeleteCategory { id } },
            ),
    {
        Step::Ask(ChangeFlow { query: self.inventory_repo.delete_category(id) })
    }

    /// Starts a listing of the active products with their category names.
    pub fn get_products(&self) -> (step: Step<ListProductsFlow, Vec<ProductWithCategory>>)
        ensures
            step@ == StepView::<ListProductsView, Seq<ProductWithCategoryView>>::Ask(
                ListProductsView {  },
            ),
    {
        Step::Ask(ListProductsFlow {  })
    }

    /// Starts the creation of a product, which ends with the product's id.
    /// Whether the category exists is not looked up.
    pub fn create_product(
        &self,
        code: Option<&str>,
        name: &str,
        category_id: Option<i64>,
        price: Amount,
        cost: Amount,
        stock: i64,
        unit: Option<&str>,
        image_url: Option<&str>,
    ) -> (step: Step<CreateProductFlow, i64>)
        ensures
            step@ == StepView::<CreateProductView, i64>::Ask(
                CreateProductView {
                    product: ProductFieldsView {
                        code: opt_str_text(code),
                        name: name@,
                        category_id,
                        price,
                        cost,
                        stock,
                        unit: opt_str_text(unit),
                        image_url: opt_str_text(image_url),
                    },
                },
            ),
    {
        Step::Ask(
            CreateProductFlow {
                product: ProductFields {
                    code: owned_text(code),
                    name: name.to_string(),
                    category_id,
                    price,
                    cost,
                    stock,
                    unit: owned_text(unit),
                    image_url: owned_text(image_url),
                },
            },
        )
    }

    /// Starts the overwrite of the fields of a product that a caller chooses.
    /// An id that no product has changes nothing and is no error.
    pub fn update_product(
        &self,
        id: i64,
        code: Option<&str>,
        name: &str,
        category_id: Option<i64>,
        price: Amount,
        cost: Amount,
        stock: i64,
        unit: Option<&str>,
        image_url: Option<&str>,
    ) -> (step: Step<ChangeFlow, ()>)
        ensures
            step@ == StepView::<ChangeView, ()>::Ask(
                ChangeView {
                    query: QueryView::UpdateProduct {
                        id,
                        product: ProductFieldsView {
                            code: opt_str_text(code),
                            name: name@,
                            category_id,
                            price,
                            cost,
                            stock,
                            unit: opt_str_text(unit),
                            image_url: opt_str_text(image_url),
                        },
                    },
                },
            ),
    {
        Step::Ask(
            ChangeFlow {
                query: self.inventory_repo.update_product(
                    id,
                    code,
                    name,
                    category_id,
                    price,
                    cost,
                    stock,
                    unit,
                    image_url,
                ),
            },
        )
    }

    /// Starts the soft delete of a product: it is marked inactive, and its
    /// row stays.
    pub fn delete_product(&self, id: i64) -> (step: Step<ChangeFlow, ()>)
        ensures
            step@ == StepView::<ChangeView, ()>::Ask(
                ChangeView { query: QueryView::SoftDeleteProduct { id } },
            ),
    {
        Step::Ask(ChangeFlow { query: self.inventory_repo.soft_delete_product(id) })
    }
}

} // verus!
