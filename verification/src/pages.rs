use vstd::prelude::*;
use crate::error::StoreError;
use crate::store::{Store, store_tables, store_in_txn, page_pairs, lists_table, dml_ok};
use crate::records::Page;
use crate::clock::now_rfc3339;
use crate::util::lex_le;

verus! {

// The notes-page repository.  Every edit re-stamps updated_at with the
// current time, so the listing order is newest activity first.

/// All pages, most recently updated first.
pub fn get_pages(store: &Store) -> (r: Result<Vec<Page>, StoreError>)
    ensures
        r matches Ok(rows) ==> {
            &&& lists_table(page_pairs(rows@), store_tables(*store).pages)
            &&& forall|i: int, j: int|
                0 <= i < j < rows@.len() ==> lex_le(
                    (#[trigger] rows@[j]).updated_at@,
                    (#[trigger] rows@[i]).updated_at@,
                )
        },
{
    store.select_pages()
}

/// The page of one identifier, if there is one; an absent identifier is not
/// an error.
pub fn get_page(store: &Store, id: i64) -> (r: Result<Option<Page>, StoreError>)
    ensures
        r matches Ok(Some(p)) ==> store_tables(*store).pages.dom().contains(id as int) && p.data()
            == store_tables(*store).pages[id as int] && p.id == id,
        r matches Ok(None) ==> !store_tables(*store).pages.dom().contains(id as int),
{
    store.get_page_row(id)
}

/// Creates a page and returns it with its fresh identifier; creation and
/// update stamps start equal.
pub fn create_page(store: &mut Store, title: String, content: String) -> (r: Result<
    Page,
    StoreError,
>)
    requires
        !store_in_txn(*old(store)),
    ensures
        !store_in_txn(*final(store)),
        r matches Ok(p) ==> {
            &&& dml_ok(*old(store), *final(store))
            &&& !store_tables(*old(store)).pages.dom().contains(p.id as int)
            &&& store_tables(*final(store)) == store_tables(*old(store)).with_pages(
                store_tables(*old(store)).pages.insert(p.id as int, p.data()),
            )
            &&& p.title == title
            &&& p.content == content
            &&& p.updated_at@ == p.created_at@
        },
        r is Err ==> store_tables(*final(store)) == store_tables(*old(store)),
{
    let now = now_rfc3339();
    match store.insert_page(title.as_str(), content.as_str(), now.as_str(), now.as_str()) {
        Ok(id) => {
            let page = Page { id, title, content, created_at: now.clone(), updated_at: now };
            Ok(page)
        },
        Err(e) => {
            proof {
                crate::store::lemma_dml_err_outside_txn(*old(store), *final(store));
            }
            Err(e)
        },
    }
}

/// Rewrites a page's title and content and re-stamps its update time; its
/// creation stamp is preserved.  An absent identifier is a no-op.
pub fn update_page(store: &mut Store, id: i64, title: &str, content: &str) -> (r: Result<
    (),
    StoreError,
>)
    requires
        !store_in_txn(*old(store)),
    ensures
        !store_in_txn(*final(store)),
        r matches Ok(_) ==> {
            let pre = store_tables(*old(store));
            let post = store_tables(*final(store));
            &&& dml_ok(*old(store), *final(store))
            &&& !pre.pages.dom().contains(id as int) ==> post == pre
            &&& pre.pages.dom().contains(id as int) ==> {
                &&& post == pre.with_pages(post.pages)
                &&& post.pages.dom() =~= pre.pages.dom()
                &&& post.pages[id as int].title == title@
                &&& post.pages[id as int].content == content@
                &&& post.pages[id as int].created_at == pre.pages[id as int].created_at
                &&& forall|k: int|
                    pre.pages.dom().contains(k) && k != id as int ==> post.pages[k]
                        == pre.pages[k]
            }
        },
        r is Err ==> store_tables(*final(store)) == store_tables(*old(store)),
{
    let existing = match store.get_page_row(id) {
        Ok(e) => e,
        Err(e) => {
            return Err(e);
        },
    };
    match existing {
        None => Ok(()),
        Some(row) => {
            let now = now_rfc3339();
            match store.upsert_page(id, title, content, row.created_at.as_str(), now.as_str()) {
                Ok(_) => {
                    proof {
                        let pre = store_tables(*old(store));
                        let post = store_tables(*final(store));
                        assert(post.pages.dom() =~= pre.pages.dom());
                    }
                    Ok(())
                },
                Err(e) => {
                    proof {
                        crate::store::lemma_dml_err_outside_txn(*old(store), *final(store));
                    }
                    Err(e)
                },
            }
        },
    }
}

/// Deletes a page; deleting an absent identifier is a no-op.
pub fn delete_page(store: &mut Store, id: i64) -> (r: Result<(), StoreError>)
    requires
        !store_in_txn(*old(store)),
    ensures
        !store_in_txn(*final(store)),
        r matches Ok(_) ==> dml_ok(*old(store), *final(store)) && store_tables(*final(store))
            == store_tables(*old(store)).with_pages(
            store_tables(*old(store)).pages.remove(id as int),
        ),
        r is Err ==> store_tables(*final(store)) == store_tables(*old(store)),
{
    match store.delete_page_row(id) {
        Ok(_) => Ok(()),
        Err(e) => {
            proof {
                crate::store::lemma_dml_err_outside_txn(*old(store), *final(store));
            }
            Err(e)
        },
    }
}

} // verus!
