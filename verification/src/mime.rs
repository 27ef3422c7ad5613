//! The MIME-to-extension table.
//!
//! A fixed, curated mapping from a canonical MIME-type string to a short file
//! extension (possibly empty, meaning "no extension"). Lookup is an exact,
//! case-sensitive match on the normalized key: the part of the content type
//! before its first `+` or `;`. The table is split into parts only to keep
//! each function a manageable size; [`mime_ext_spec`] chains the parts.

use vstd::prelude::*;

use crate::errors::ExtError;
use crate::short_str::MAX_SHORT_STR_LEN;
use crate::short_str::ShortStr;
use crate::text::normalize;
use crate::text::normalize_mime;
use crate::text::str_eq;

verus! {

/// One part of the table, as a first-match chain.
pub open spec fn mime_ext_part_a(s: Seq<char>) -> Option<Seq<char>> {
    if s == "text/h323"@ {
        Some(".323"@)
    } else if s == "application/octet-stream"@ {
        Some(""@)
    } else if s == "text/plain"@ {
        Some(".txt"@)
    } else if s == "application/msaccess"@ {
        Some(".accdb"@)
    } else if s == "application/internet-property-stream"@ {
        Some(".acx"@)
    } else if s == "audio/x-aiff"@ {
        Some(".aif"@)
    } else if s == "audio/aiff"@ {
        Some(".aiff"@)
    } else if s == "application/x-ms-application"@ {
        Some(".application"@)
    } else if s == "image/x-jg"@ {
        Some(".art"@)
    } else if s == "video/x-ms-asf"@ {
        Some(".asf"@)
    } else if s == "application/atom"@ {
        Some(".atom"@)
    } else if s == "audio/basic"@ {
        Some(".au"@)
    } else if s == "video/x-msvideo"@ {
        Some(".avi"@)
    } else if s == "application/olescript"@ {
        Some(".axs"@)
    } else if s == "application/x-bcpio"@ {
        Some(".bcpio"@)
    } else if s == "image/bmp"@ {
        Some(".bmp"@)
    } else if s == "application/vnd.ms-office.calx"@ {
        Some(".calx"@)
    } else if s == "application/vnd.ms-pki.seccat"@ {
        Some(".cat"@)
    } else if s == "application/x-cdf"@ {
        Some(".cdf"@)
    } else if s == "application/x-java-applet"@ {
        Some(".class"@)
    } else if s == "application/x-msclip"@ {
        Some(".clp"@)
    } else if s == "image/x-cmx"@ {
        Some(".cmx"@)
    } else if s == "image/cis-cod"@ {
        Some(".cod"@)
    } else if s == "application/x-cpio"@ {
        Some(".cpio"@)
    } else if s == "application/x-mscardfile"@ {
        Some(".crd"@)
    } else if s == "application/pkix-crl"@ {
        Some(".crl"@)
    } else {
        None
    }
}

fn lookup_part_a(s: &str) -> (r: Option<&'static str>)
    ensures
        match r {
            Some(e) => mime_ext_part_a(s@) == Some(e@) && e@.len() <= MAX_SHORT_STR_LEN,
            None => mime_ext_part_a(s@) is None,
        },
{
    if str_eq(s, "text/h323") {
        proof {
            reveal_strlit(".323");
        }
        Some(".323")
    } else if str_eq(s, "application/octet-stream") {
        proof {
            reveal_strlit("");
        }
        Some("")
    } else if str_eq(s, "text/plain") {
        proof {
            reveal_strlit(".txt");
        }
        Some(".txt")
    } else if str_eq(s, "application/msaccess") {
        proof {
            reveal_strlit(".accdb");
        }
        Some(".accdb")
    } else if str_eq(s, "application/internet-property-stream") {
        proof {
            reveal_strlit(".acx");
        }
        Some(".acx")
    } else if str_eq(s, "audio/x-aiff") {
        proof {
            reveal_strlit(".aif");
        }
        Some(".aif")
    } else if str_eq(s, "audio/aiff") {
        proof {
            reveal_strlit(".aiff");
        }
        Some(".aiff")
    } else if str_eq(s, "application/x-ms-application") {
        proof {
            reveal_strlit(".application");
        }
        Some(".application")
    } else if str_eq(s, "image/x-jg") {
        proof {
            reveal_strlit(".art");
        }
        Some(".art")
    } else if str_eq(s, "video/x-ms-asf") {
        proof {
            reveal_strlit(".asf");
        }
        Some(".asf")
    } else if str_eq(s, "application/atom") {
        proof {
            reveal_strlit(".atom");
        }
        Some(".atom")
    } else if str_eq(s, "audio/basic") {
        proof {
            reveal_strlit(".au");
        }
        Some(".au")
    } else if str_eq(s, "video/x-msvideo") {
        proof {
            reveal_strlit(".avi");
        }
        Some(".avi")
    } else if str_eq(s, "application/olescript") {
        proof {
            reveal_strlit(".axs");
        }
        Some(".axs")
    } else if str_eq(s, "application/x-bcpio") {
        proof {
            reveal_strlit(".bcpio");
        }
        Some(".bcpio")
    } else if str_eq(s, "image/bmp") {
        proof {
            reveal_strlit(".bmp");
        }
        Some(".bmp")
    } else if str_eq(s, "application/vnd.ms-office.calx") {
        proof {
            reveal_strlit(".calx");
        }
        Some(".calx")
    } else if str_eq(s, "application/vnd.ms-pki.seccat") {
        proof {
            reveal_strlit(".cat");
        }
        Some(".cat")
    } else if str_eq(s, "application/x-cdf") {
        proof {
            reveal_strlit(".cdf");
        }
        Some(".cdf")
    } else if str_eq(s, "application/x-java-applet") {
        proof {
            reveal_strlit(".class");
        }
        Some(".class")
    } else if str_eq(s, "application/x-msclip") {
        proof {
            reveal_strlit(".clp");
        }
        Some(".clp")
    } else if str_eq(s, "image/x-cmx") {
        proof {
            reveal_strlit(".cmx");
        }
        Some(".cmx")
    } else if str_eq(s, "image/cis-cod") {
        proof {
            reveal_strlit(".cod");
        }
        Some(".cod")
    } else if str_eq(s, "application/x-cpio") {
        proof {
            reveal_strlit(".cpio");
        }
        Some(".cpio")
    } else if str_eq(s, "application/x-mscardfile") {
        proof {
            reveal_strlit(".crd");
        }
        Some(".crd")
    } else if str_eq(s, "application/pkix-crl") {
        proof {
            reveal_strlit(".crl");
        }
        Some(".crl")
    } else {
        None
    }
}

/// One part of the table, as a first-match chain.
pub open spec fn mime_ext_part_b(s: Seq<char>) -> Option<Seq<char>> {
    if s == "application/x-x509-ca-cert"@ {
        Some(".crt"@)
    } else if s == "application/x-csh"@ {
        Some(".csh"@)
    } else if s == "text/css"@ {
        Some(".css"@)
    } else if s == "application/x-director"@ {
        Some(".dir"@)
    } else if s == "application/x-msdownload"@ {
        Some(".dll"@)
    } else if s == "text/dlm"@ {
        Some(".dlm"@)
    } else if s == "application/msword"@ {
        Some(".doc"@)
    } else if s == "application/vnd.ms-word.document.macroEnabled.12"@ {
        Some(".docm"@)
    } else if s == "application/vnd.openxmlformats-officedocument.wordprocessingml.document"@ {
        Some(".docx"@)
    } else if s == "application/vnd.ms-word.template.macroEnabled.12"@ {
        Some(".dotm"@)
    } else if s == "application/vnd.openxmlformats-officedocument.wordprocessingml.template"@ {
        Some(".dotx"@)
    } else if s == "application/x-dvi"@ {
        Some(".dvi"@)
    } else if s == "drawing/x-dwf"@ {
        Some(".dwf"@)
    } else if s == "text/x-setext"@ {
        Some(".etx"@)
    } else if s == "application/envoy"@ {
        Some(".evy"@)
    } else if s == "application/vnd.fdf"@ {
        Some(".fdf"@)
    } else if s == "application/fractals"@ {
        Some(".fif"@)
    } else if s == "x-world/x-vrml"@ {
        Some(".flr"@)
    } else if s == "video/x-flv"@ {
        Some(".flv"@)
    } else if s == "image/gif"@ {
        Some(".gif"@)
    } else if s == "application/x-gtar"@ {
        Some(".gtar"@)
    } else if s == "application/x-gzip"@ {
        Some(".gz"@)
    } else if s == "application/x-hdf"@ {
        Some(".hdf"@)
    } else if s == "text/x-hdml"@ {
        Some(".hdml"@)
    } else if s == "application/x-oleobject"@ {
        Some(".hhc"@)
    } else if s == "application/winhlp"@ {
        Some(".hlp"@)
    } else {
        None
    }
}

fn lookup_part_b(s: &str) -> (r: Option<&'static str>)
    ensures
        match r {
            Some(e) => mime_ext_part_b(s@) == Some(e@) && e@.len() <= MAX_SHORT_STR_LEN,
            None => mime_ext_part_b(s@) is None,
        },
{
    if str_eq(s, "application/x-x509-ca-cert") {
        proof {
            reveal_strlit(".crt");
        }
        Some(".crt")
    } else if str_eq(s, "application/x-csh") {
        proof {
            reveal_strlit(".csh");
        }
        Some(".csh")
    } else if str_eq(s, "text/css") {
        proof {
            reveal_strlit(".css");
        }
        Some(".css")
    } else if str_eq(s, "application/x-director") {
        proof {
            reveal_strlit(".dir");
        }
        Some(".dir")
    } else if str_eq(s, "application/x-msdownload") {
        proof {
            reveal_strlit(".dll");
        }
        Some(".dll")
    } else if str_eq(s, "text/dlm") {
        proof {
            reveal_strlit(".dlm");
        }
        Some(".dlm")
    } else if str_eq(s, "application/msword") {
        proof {
            reveal_strlit(".doc");
        }
        Some(".doc")
    } else if str_eq(s, "application/vnd.ms-word.document.macroEnabled.12") {
        proof {
            reveal_strlit(".docm");
        }
        Some(".docm")
    } else if str_eq(s, "application/vnd.openxmlformats-officedocument.wordprocessingml.document") {
        proof {
            reveal_strlit(".docx");
        }
        Some(".docx")
    } else if str_eq(s, "application/vnd.ms-word.template.macroEnabled.12") {
        proof {
            reveal_strlit(".dotm");
        }
        Some(".dotm")
    } else if str_eq(s, "application/vnd.openxmlformats-officedocument.wordprocessingml.template") {
        proof {
            reveal_strlit(".dotx");
        }
        Some(".dotx")
    } else if str_eq(s, "application/x-dvi") {
        proof {
            reveal_strlit(".dvi");
        }
        Some(".dvi")
    } else if str_eq(s, "drawing/x-dwf") {
        proof {
            reveal_strlit(".dwf");
        }
        Some(".dwf")
    } else if str_eq(s, "text/x-setext") {
        proof {
            reveal_strlit(".etx");
        }
        Some(".etx")
    } else if str_eq(s, "application/envoy") {
        proof {
            reveal_strlit(".evy");
        }
        Some(".evy")
    } else if str_eq(s, "application/vnd.fdf") {
        proof {
            reveal_strlit(".fdf");
        }
        Some(".fdf")
    } else if str_eq(s, "application/fractals") {
        proof {
            reveal_strlit(".fif");
        }
        Some(".fif")
    } else if str_eq(s, "x-world/x-vrml") {
        proof {
            reveal_strlit(".flr");
        }
        Some(".flr")
    } else if str_eq(s, "video/x-flv") {
        proof {
            reveal_strlit(".flv");
        }
        Some(".flv")
    } else if str_eq(s, "image/gif") {
        proof {
            reveal_strlit(".gif");
        }
        Some(".gif")
    } else if str_eq(s, "application/x-gtar") {
        proof {
            reveal_strlit(".gtar");
        }
        Some(".gtar")
    } else if str_eq(s, "application/x-gzip") {
        proof {
            reveal_strlit(".gz");
        }
        Some(".gz")
    } else if str_eq(s, "application/x-hdf") {
        proof {
            reveal_strlit(".hdf");
        }
        Some(".hdf")
    } else if str_eq(s, "text/x-hdml") {
        proof {
            reveal_strlit(".hdml");
        }
        Some(".hdml")
    } else if str_eq(s, "application/x-oleobject") {
        proof {
            reveal_strlit(".hhc");
        }
        Some(".hhc")
    } else if str_eq(s, "application/winhlp") {
        proof {
            reveal_strlit(".hlp");
        }
        Some(".hlp")
    } else {
        None
    }
}

/// One part of the table, as a first-match chain.
pub open spec fn mime_ext_part_c(s: Seq<char>) -> Option<Seq<char>> {
    if s == "application/mac-binhex40"@ {
        Some(".hqx"@)
    } else if s == "application/hta"@ {
        Some(".hta"@)
    } else if s == "text/x-component"@ {
        Some(".htc"@)
    } else if s == "text/html"@ {
        Some(".html"@)
    } else if s == "text/webviewhtml"@ {
        Some(".htt"@)
    } else if s == "image/x-icon"@ {
        Some(".ico"@)
    } else if s == "image/ief"@ {
        Some(".ief"@)
    } else if s == "application/x-iphone"@ {
        Some(".iii"@)
    } else if s == "application/x-internet-signup"@ {
        Some(".ins"@)
    } else if s == "video/x-ivf"@ {
        Some(".IVF"@)
    } else if s == "application/java-archive"@ {
        Some(".jar"@)
    } else if s == "application/liquidmotion"@ {
        Some(".jck"@)
    } else if s == "image/pjpeg"@ {
        Some(".jfif"@)
    } else if s == "image/jpeg"@ {
        Some(".jpeg"@)
    } else if s == "application/x-javascript"@ {
        Some(".js"@)
    } else if s == "text/jscript"@ {
        Some(".jsx"@)
    } else if s == "application/x-latex"@ {
        Some(".latex"@)
    } else if s == "application/x-ms-reader"@ {
        Some(".lit"@)
    } else if s == "video/x-la-asf"@ {
        Some(".lsf"@)
    } else if s == "application/x-msmediaview"@ {
        Some(".m13"@)
    } else if s == "audio/x-mpegurl"@ {
        Some(".m3u"@)
    } else if s == "application/x-troff-man"@ {
        Some(".man"@)
    } else if s == "application/x-ms-manifest"@ {
        Some(".manifest"@)
    } else if s == "application/x-msaccess"@ {
        Some(".mdb"@)
    } else if s == "application/x-troff-me"@ {
        Some(".me"@)
    } else if s == "message/rfc822"@ {
        Some(".mhtml"@)
    } else {
        None
    }
}

fn lookup_part_c(s: &str) -> (r: Option<&'static str>)
    ensures
        match r {
            Some(e) => mime_ext_part_c(s@) == Some(e@) && e@.len() <= MAX_SHORT_STR_LEN,
            None => mime_ext_part_c(s@) is None,
        },
{
    if str_eq(s, "application/mac-binhex40") {
        proof {
            reveal_strlit(".hqx");
        }
        Some(".hqx")
    } else if str_eq(s, "application/hta") {
        proof {
            reveal_strlit(".hta");
        }
        Some(".hta")
    } else if str_eq(s, "text/x-component") {
        proof {
            reveal_strlit(".htc");
        }
        Some(".htc")
    } else if str_eq(s, "text/html") {
        proof {
            reveal_strlit(".html");
        }
        Some(".html")
    } else if str_eq(s, "text/webviewhtml") {
        proof {
            reveal_strlit(".htt");
        }
        Some(".htt")
    } else if str_eq(s, "image/x-icon") {
        proof {
            reveal_strlit(".ico");
        }
        Some(".ico")
    } else if str_eq(s, "image/ief") {
        proof {
            reveal_strlit(".ief");
        }
        Some(".ief")
    } else if str_eq(s, "application/x-iphone") {
        proof {
            reveal_strlit(".iii");
        }
        Some(".iii")
    } else if str_eq(s, "application/x-internet-signup") {
        proof {
            reveal_strlit(".ins");
        }
        Some(".ins")
    } else if str_eq(s, "video/x-ivf") {
        proof {
            reveal_strlit(".IVF");
        }
        Some(".IVF")
    } else if str_eq(s, "application/java-archive") {
        proof {
            reveal_strlit(".jar");
        }
        Some(".jar")
    } else if str_eq(s, "application/liquidmotion") {
        proof {
            reveal_strlit(".jck");
        }
        Some(".jck")
    } else if str_eq(s, "image/pjpeg") {
        proof {
            reveal_strlit(".jfif");
        }
        Some(".jfif")
    } else if str_eq(s, "image/jpeg") {
        proof {
            reveal_strlit(".jpeg");
        }
        Some(".jpeg")
    } else if str_eq(s, "application/x-javascript") {
        proof {
            reveal_strlit(".js");
        }
        Some(".js")
    } else if str_eq(s, "text/jscript") {
        proof {
            reveal_strlit(".jsx");
        }
        Some(".jsx")
    } else if str_eq(s, "application/x-latex") {
        proof {
            reveal_strlit(".latex");
        }
        Some(".latex")
    } else if str_eq(s, "application/x-ms-reader") {
        proof {
            reveal_strlit(".lit");
        }
        Some(".lit")
    } else if str_eq(s, "video/x-la-asf") {
        proof {
            reveal_strlit(".lsf");
        }
        Some(".lsf")
    } else if str_eq(s, "application/x-msmediaview") {
        proof {
            reveal_strlit(".m13");
        }
        Some(".m13")
    } else if str_eq(s, "audio/x-mpegurl") {
        proof {
            reveal_strlit(".m3u");
        }
        Some(".m3u")
    } else if str_eq(s, "application/x-troff-man") {
        proof {
            reveal_strlit(".man");
        }
        Some(".man")
    } else if str_eq(s, "application/x-ms-manifest") {
        proof {
            reveal_strlit(".manifest");
        }
        Some(".manifest")
    } else if str_eq(s, "application/x-msaccess") {
        proof {
            reveal_strlit(".mdb");
        }
        Some(".mdb")
    } else if str_eq(s, "application/x-troff-me") {
        proof {
            reveal_strlit(".me");
        }
        Some(".me")
    } else if str_eq(s, "message/rfc822") {
        proof {
            reveal_strlit(".mhtml");
        }
        Some(".mhtml")
    } else {
        None
    }
}

/// One part of the table, as a first-match chain.
pub open spec fn mime_ext_part_d(s: Seq<char>) -> Option<Seq<char>> {
    if s == "audio/mid"@ {
        Some(".midi"@)
    } else if s == "application/x-smaf"@ {
        Some(".mmf"@)
    } else if s == "application/x-msmoney"@ {
        Some(".mny"@)
    } else if s == "video/quicktime"@ {
        Some(".mov"@)
    } else if s == "video/x-sgi-movie"@ {
        Some(".movie"@)
    } else if s == "audio/mpeg"@ {
        Some(".mp3"@)
    } else if s == "video/mpeg"@ {
        Some(".mpeg"@)
    } else if s == "application/vnd.ms-project"@ {
        Some(".mpp"@)
    } else if s == "application/x-troff-ms"@ {
        Some(".ms"@)
    } else if s == "application/x-miva-compiled"@ {
        Some(".mvc"@)
    } else if s == "application/x-netcdf"@ {
        Some(".nc"@)
    } else if s == "application/oda"@ {
        Some(".oda"@)
    } else if s == "text/x-ms-odc"@ {
        Some(".odc"@)
    } else if s == "application/oleobject"@ {
        Some(".ods"@)
    } else if s == "application/onenote"@ {
        Some(".one"@)
    } else if s == "application/opensearchdescription"@ {
        Some(".osdx"@)
    } else if s == "application/pkcs10"@ {
        Some(".p10"@)
    } else if s == "application/x-pkcs12"@ {
        Some(".p12"@)
    } else if s == "application/x-pkcs7-certificates"@ {
        Some(".p7b"@)
    } else if s == "application/pkcs7-mime"@ {
        Some(".p7c"@)
    } else if s == "application/x-pkcs7-certreqresp"@ {
        Some(".p7r"@)
    } else if s == "application/pkcs7-signature"@ {
        Some(".p7s"@)
    } else if s == "image/x-portable-bitmap"@ {
        Some(".pbm"@)
    } else if s == "application/pdf"@ {
        Some(".pdf"@)
    } else if s == "image/x-portable-graymap"@ {
        Some(".pgm"@)
    } else if s == "application/vnd.ms-pki.pko"@ {
        Some(".pko"@)
    } else {
        None
    }
}

fn lookup_part_d(s: &str) -> (r: Option<&'static str>)
    ensures
        match r {
            Some(e) => mime_ext_part_d(s@) == Some(e@) && e@.len() <= MAX_SHORT_STR_LEN,
            None => mime_ext_part_d(s@) is None,
        },
{
    if str_eq(s, "audio/mid") {
        proof {
            reveal_strlit(".midi");
        }
        Some(".midi")
    } else if str_eq(s, "application/x-smaf") {
        proof {
            reveal_strlit(".mmf");
        }
        Some(".mmf")
    } else if str_eq(s, "application/x-msmoney") {
        proof {
            reveal_strlit(".mny");
        }
        Some(".mny")
    } else if str_eq(s, "video/quicktime") {
        proof {
            reveal_strlit(".mov");
        }
        Some(".mov")
    } else if str_eq(s, "video/x-sgi-movie") {
        proof {
            reveal_strlit(".movie");
        }
        Some(".movie")
    } else if str_eq(s, "audio/mpeg") {
        proof {
            reveal_strlit(".mp3");
        }
        Some(".mp3")
    } else if str_eq(s, "video/mpeg") {
        proof {
            reveal_strlit(".mpeg");
        }
        Some(".mpeg")
    } else if str_eq(s, "application/vnd.ms-project") {
        proof {
            reveal_strlit(".mpp");
        }
        Some(".mpp")
    } else if str_eq(s, "application/x-troff-ms") {
        proof {
            reveal_strlit(".ms");
        }
        Some(".ms")
    } else if str_eq(s, "application/x-miva-compiled") {
        proof {
            reveal_strlit(".mvc");
        }
        Some(".mvc")
    } else if str_eq(s, "application/x-netcdf") {
        proof {
            reveal_strlit(".nc");
        }
        Some(".nc")
    } else if str_eq(s, "application/oda") {
        proof {
            reveal_strlit(".oda");
        }
        Some(".oda")
    } else if str_eq(s, "text/x-ms-odc") {
        proof {
            reveal_strlit(".odc");
        }
        Some(".odc")
    } else if str_eq(s, "application/oleobject") {
        proof {
            reveal_strlit(".ods");
        }
        Some(".ods")
    } else if str_eq(s, "application/onenote") {
        proof {
            reveal_strlit(".one");
        }
        Some(".one")
    } else if str_eq(s, "application/opensearchdescription") {
        proof {
            reveal_strlit(".osdx");
        }
        Some(".osdx")
    } else if str_eq(s, "application/pkcs10") {
        proof {
            reveal_strlit(".p10");
        }
        Some(".p10")
    } else if str_eq(s, "application/x-pkcs12") {
        proof {
            reveal_strlit(".p12");
        }
        Some(".p12")
    } else if str_eq(s, "application/x-pkcs7-certificates") {
        proof {
            reveal_strlit(".p7b");
        }
        Some(".p7b")
    } else if str_eq(s, "application/pkcs7-mime") {
        proof {
            reveal_strlit(".p7c");
        }
        Some(".p7c")
    } else if str_eq(s, "application/x-pkcs7-certreqresp") {
        proof {
            reveal_strlit(".p7r");
        }
        Some(".p7r")
    } else if str_eq(s, "application/pkcs7-signature") {
        proof {
            reveal_strlit(".p7s");
        }
        Some(".p7s")
    } else if str_eq(s, "image/x-portable-bitmap") {
        proof {
            reveal_strlit(".pbm");
        }
        Some(".pbm")
    } else if str_eq(s, "application/pdf") {
        proof {
            reveal_strlit(".pdf");
        }
        Some(".pdf")
    } else if str_eq(s, "image/x-portable-graymap") {
        proof {
            reveal_strlit(".pgm");
        }
        Some(".pgm")
    } else if str_eq(s, "application/vnd.ms-pki.pko") {
        proof {
            reveal_strlit(".pko");
        }
        Some(".pko")
    } else {
        None
    }
}

/// One part of the table, as a first-match chain.
pub open spec fn mime_ext_part_e(s: Seq<char>) -> Option<Seq<char>> {
    if s == "application/x-perfmon"@ {
        Some(".pma"@)
    } else if s == "image/png"@ {
        Some(".png"@)
    } else if s == "image/x-portable-anymap"@ {
        Some(".pnm"@)
    } else if s == "application/vnd.ms-powerpoint"@ {
        Some(".pot"@)
    } else if s == "application/vnd.ms-powerpoint.template.macroEnabled.12"@ {
        Some(".potm"@)
    } else if s == "application/vnd.openxmlformats-officedocument.presentationml.template"@ {
        Some(".potx"@)
    } else if s == "application/vnd.ms-powerpoint.addin.macroEnabled.12"@ {
        Some(".ppam"@)
    } else if s == "image/x-portable-pixmap"@ {
        Some(".ppm"@)
    } else if s == "application/vnd.ms-powerpoint.slideshow.macroEnabled.12"@ {
        Some(".ppsm"@)
    } else if s == "application/vnd.openxmlformats-officedocument.presentationml.slideshow"@ {
        Some(".ppsx"@)
    } else if s == "application/vnd.ms-powerpoint.presentation.macroEnabled.12"@ {
        Some(".pptm"@)
    } else if s == "application/vnd.openxmlformats-officedocument.presentationml.presentation"@ {
        Some(".pptx"@)
    } else if s == "application/pics-rules"@ {
        Some(".prf"@)
    } else if s == "application/postscript"@ {
        Some(".ps"@)
    } else if s == "application/x-mspublisher"@ {
        Some(".pub"@)
    } else if s == "application/x-quicktimeplayer"@ {
        Some(".qtl"@)
    } else if s == "audio/x-pn-realaudio"@ {
        Some(".ra"@)
    } else if s == "image/x-cmu-raster"@ {
        Some(".ras"@)
    } else if s == "image/vnd.rn-realflash"@ {
        Some(".rf"@)
    } else if s == "image/x-rgb"@ {
        Some(".rgb"@)
    } else if s == "application/vnd.rn-realmedia"@ {
        Some(".rm"@)
    } else if s == "application/x-troff"@ {
        Some(".roff"@)
    } else if s == "audio/x-pn-realaudio-plugin"@ {
        Some(".rpm"@)
    } else if s == "application/rtf"@ {
        Some(".rtf"@)
    } else if s == "text/richtext"@ {
        Some(".rtx"@)
    } else if s == "application/x-msschedule"@ {
        Some(".scd"@)
    } else {
        None
    }
}

fn lookup_part_e(s: &str) -> (r: Option<&'static str>)
    ensures
        match r {
            Some(e) => mime_ext_part_e(s@) == Some(e@) && e@.len() <= MAX_SHORT_STR_LEN,
            None => mime_ext_part_e(s@) is None,
        },
{
    if str_eq(s, "application/x-perfmon") {
        proof {
            reveal_strlit(".pma");
        }
        Some(".pma")
    } else if str_eq(s, "image/png") {
        proof {
            reveal_strlit(".png");
        }
        Some(".png")
    } else if str_eq(s, "image/x-portable-anymap") {
        proof {
            reveal_strlit(".pnm");
        }
        Some(".pnm")
    } else if str_eq(s, "application/vnd.ms-powerpoint") {
        proof {
            reveal_strlit(".pot");
        }
        Some(".pot")
    } else if str_eq(s, "application/vnd.ms-powerpoint.template.macroEnabled.12") {
        proof {
            reveal_strlit(".potm");
        }
        Some(".potm")
    } else if str_eq(s, "application/vnd.openxmlformats-officedocument.presentationml.template") {
        proof {
            reveal_strlit(".potx");
        }
        Some(".potx")
    } else if str_eq(s, "application/vnd.ms-powerpoint.addin.macroEnabled.12") {
        proof {
            reveal_strlit(".ppam");
        }
        Some(".ppam")
    } else if str_eq(s, "image/x-portable-pixmap") {
        proof {
            reveal_strlit(".ppm");
        }
        Some(".ppm")
    } else if str_eq(s, "application/vnd.ms-powerpoint.slideshow.macroEnabled.12") {
        proof {
            reveal_strlit(".ppsm");
        }
        Some(".ppsm")
    } else if str_eq(s, "application/vnd.openxmlformats-officedocument.presentationml.slideshow") {
        proof {
            reveal_strlit(".ppsx");
        }
        Some(".ppsx")
    } else if str_eq(s, "application/vnd.ms-powerpoint.presentation.macroEnabled.12") {
        proof {
            reveal_strlit(".pptm");
        }
        Some(".pptm")
    } else if str_eq(s, "application/vnd.openxmlformats-officedocument.presentationml.presentation") {
        proof {
            reveal_strlit(".pptx");
        }
        Some(".pptx")
    } else if str_eq(s, "application/pics-rules") {
        proof {
            reveal_strlit(".prf");
        }
        Some(".prf")
    } else if str_eq(s, "application/postscript") {
        proof {
            reveal_strlit(".ps");
        }
        Some(".ps")
    } else if str_eq(s, "application/x-mspublisher") {
        proof {
            reveal_strlit(".pub");
        }
        Some(".pub")
    } else if str_eq(s, "application/x-quicktimeplayer") {
        proof {
            reveal_strlit(".qtl");
        }
        Some(".qtl")
    } else if str_eq(s, "audio/x-pn-realaudio") {
        proof {
            reveal_strlit(".ra");
        }
        Some(".ra")
    } else if str_eq(s, "image/x-cmu-raster") {
        proof {
            reveal_strlit(".ras");
        }
        Some(".ras")
    } else if str_eq(s, "image/vnd.rn-realflash") {
        proof {
            reveal_strlit(".rf");
        }
        Some(".rf")
    } else if str_eq(s, "image/x-rgb") {
        proof {
            reveal_strlit(".rgb");
        }
        Some(".rgb")
    } else if str_eq(s, "application/vnd.rn-realmedia") {
        proof {
            reveal_strlit(".rm");
        }
        Some(".rm")
    } else if str_eq(s, "application/x-troff") {
        proof {
            reveal_strlit(".roff");
        }
        Some(".roff")
    } else if str_eq(s, "audio/x-pn-realaudio-plugin") {
        proof {
            reveal_strlit(".rpm");
        }
        Some(".rpm")
    } else if str_eq(s, "application/rtf") {
        proof {
            reveal_strlit(".rtf");
        }
        Some(".rtf")
    } else if str_eq(s, "text/richtext") {
        proof {
            reveal_strlit(".rtx");
        }
        Some(".rtx")
    } else if str_eq(s, "application/x-msschedule") {
        proof {
            reveal_strlit(".scd");
        }
        Some(".scd")
    } else {
        None
    }
}

/// One part of the table, as a first-match chain.
pub open spec fn mime_ext_part_f(s: Seq<char>) -> Option<Seq<char>> {
    if s == "text/scriptlet"@ {
        Some(".sct"@)
    } else if s == "application/set-payment-initiation"@ {
        Some(".setpay"@)
    } else if s == "application/set-registration-initiation"@ {
        Some(".setreg"@)
    } else if s == "text/sgml"@ {
        Some(".sgml"@)
    } else if s == "application/x-sh"@ {
        Some(".sh"@)
    } else if s == "application/x-shar"@ {
        Some(".shar"@)
    } else if s == "application/x-stuffit"@ {
        Some(".sit"@)
    } else if s == "application/vnd.ms-powerpoint.slide.macroEnabled.12"@ {
        Some(".sldm"@)
    } else if s == "application/vnd.openxmlformats-officedocument.presentationml.slide"@ {
        Some(".sldx"@)
    } else if s == "audio/x-smd"@ {
        Some(".smd"@)
    } else if s == "application/futuresplash"@ {
        Some(".spl"@)
    } else if s == "application/x-wais-source"@ {
        Some(".src"@)
    } else if s == "application/streamingmedia"@ {
        Some(".ssm"@)
    } else if s == "application/vnd.ms-pki.certstore"@ {
        Some(".sst"@)
    } else if s == "application/vnd.ms-pki.stl"@ {
        Some(".stl"@)
    } else if s == "application/x-sv4cpio"@ {
        Some(".sv4cpio"@)
    } else if s == "application/x-sv4crc"@ {
        Some(".sv4crc"@)
    } else if s == "image/svg"@ {
        Some(".svg"@)
    } else if s == "application/x-shockwave-flash"@ {
        Some(".swf"@)
    } else if s == "application/x-tar"@ {
        Some(".tar"@)
    } else if s == "application/x-tcl"@ {
        Some(".tcl"@)
    } else if s == "application/x-tex"@ {
        Some(".tex"@)
    } else if s == "application/x-texinfo"@ {
        Some(".texi"@)
    } else if s == "application/x-compressed"@ {
        Some(".tgz"@)
    } else if s == "application/vnd.ms-officetheme"@ {
        Some(".thmx"@)
    } else if s == "image/tiff"@ {
        Some(".tiff"@)
    } else {
        None
    }
}

fn lookup_part_f(s: &str) -> (r: Option<&'static str>)
    ensures
        match r {
            Some(e) => mime_ext_part_f(s@) == Some(e@) && e@.len() <= MAX_SHORT_STR_LEN,
            None => mime_ext_part_f(s@) is None,
        },
{
    if str_eq(s, "text/scriptlet") {
        proof {
            reveal_strlit(".sct");
        }
        Some(".sct")
    } else if str_eq(s, "application/set-payment-initiation") {
        proof {
            reveal_strlit(".setpay");
        }
        Some(".setpay")
    } else if str_eq(s, "application/set-registration-initiation") {
        proof {
            reveal_strlit(".setreg");
        }
        Some(".setreg")
    } else if str_eq(s, "text/sgml") {
        proof {
            reveal_strlit(".sgml");
        }
        Some(".sgml")
    } else if str_eq(s, "application/x-sh") {
        proof {
            reveal_strlit(".sh");
        }
        Some(".sh")
    } else if str_eq(s, "application/x-shar") {
        proof {
            reveal_strlit(".shar");
        }
        Some(".shar")
    } else if str_eq(s, "application/x-stuffit") {
        proof {
            reveal_strlit(".sit");
        }
        Some(".sit")
    } else if str_eq(s, "application/vnd.ms-powerpoint.slide.macroEnabled.12") {
        proof {
            reveal_strlit(".sldm");
        }
        Some(".sldm")
    } else if str_eq(s, "application/vnd.openxmlformats-officedocument.presentationml.slide") {
        proof {
            reveal_strlit(".sldx");
        }
        Some(".sldx")
    } else if str_eq(s, "audio/x-smd") {
        proof {
            reveal_strlit(".smd");
        }
        Some(".smd")
    } else if str_eq(s, "application/futuresplash") {
        proof {
            reveal_strlit(".spl");
        }
        Some(".spl")
    } else if str_eq(s, "application/x-wais-source") {
        proof {
            reveal_strlit(".src");
        }
        Some(".src")
    } else if str_eq(s, "application/streamingmedia") {
        proof {
            reveal_strlit(".ssm");
        }
        Some(".ssm")
    } else if str_eq(s, "application/vnd.ms-pki.certstore") {
        proof {
            reveal_strlit(".sst");
        }
        Some(".sst")
    } else if str_eq(s, "application/vnd.ms-pki.stl") {
        proof {
            reveal_strlit(".stl");
        }
        Some(".stl")
    } else if str_eq(s, "application/x-sv4cpio") {
        proof {
            reveal_strlit(".sv4cpio");
        }
        Some(".sv4cpio")
    } else if str_eq(s, "application/x-sv4crc") {
        proof {
            reveal_strlit(".sv4crc");
        }
        Some(".sv4crc")
    } else if str_eq(s, "image/svg") {
        proof {
            reveal_strlit(".svg");
        }
        Some(".svg")
    } else if str_eq(s, "application/x-shockwave-flash") {
        proof {
            reveal_strlit(".swf");
        }
        Some(".swf")
    } else if str_eq(s, "application/x-tar") {
        proof {
            reveal_strlit(".tar");
        }
        Some(".tar")
    } else if str_eq(s, "application/x-tcl") {
        proof {
            reveal_strlit(".tcl");
        }
        Some(".tcl")
    } else if str_eq(s, "application/x-tex") {
        proof {
            reveal_strlit(".tex");
        }
        Some(".tex")
    } else if str_eq(s, "application/x-texinfo") {
        proof {
            reveal_strlit(".texi");
        }
        Some(".texi")
    } else if str_eq(s, "application/x-compressed") {
        proof {
            reveal_strlit(".tgz");
        }
        Some(".tgz")
    } else if str_eq(s, "application/vnd.ms-officetheme") {
        proof {
            reveal_strlit(".thmx");
        }
        Some(".thmx")
    } else if str_eq(s, "image/tiff") {
        proof {
            reveal_strlit(".tiff");
        }
        Some(".tiff")
    } else {
        None
    }
}

/// One part of the table, as a first-match chain.
pub open spec fn mime_ext_part_g(s: Seq<char>) -> Option<Seq<char>> {
    if s == "application/x-msterminal"@ {
        Some(".trm"@)
    } else if s == "text/tab-separated-values"@ {
        Some(".tsv"@)
    } else if s == "text/iuls"@ {
        Some(".uls"@)
    } else if s == "application/x-ustar"@ {
        Some(".ustar"@)
    } else if s == "text/vbscript"@ {
        Some(".vbs"@)
    } else if s == "text/x-vcard"@ {
        Some(".vcf"@)
    } else if s == "application/vnd.ms-visio.viewer"@ {
        Some(".vdx"@)
    } else if s == "application/vnd.visio"@ {
        Some(".vsd"@)
    } else if s == "application/x-ms-vsto"@ {
        Some(".vsto"@)
    } else if s == "audio/wav"@ {
        Some(".wav"@)
    } else if s == "audio/x-ms-wax"@ {
        Some(".wax"@)
    } else if s == "image/vnd.wap.wbmp"@ {
        Some(".wbmp"@)
    } else if s == "application/vnd.ms-works"@ {
        Some(".wcm"@)
    } else if s == "video/x-ms-wm"@ {
        Some(".wm"@)
    } else if s == "audio/x-ms-wma"@ {
        Some(".wma"@)
    } else if s == "application/x-ms-wmd"@ {
        Some(".wmd"@)
    } else if s == "application/x-msmetafile"@ {
        Some(".wmf"@)
    } else if s == "text/vnd.wap.wml"@ {
        Some(".wml"@)
    } else if s == "application/vnd.wap.wmlc"@ {
        Some(".wmlc"@)
    } else if s == "text/vnd.wap.wmlscript"@ {
        Some(".wmls"@)
    } else if s == "application/vnd.wap.wmlscriptc"@ {
        Some(".wmlsc"@)
    } else if s == "video/x-ms-wmp"@ {
        Some(".wmp"@)
    } else if s == "video/x-ms-wmv"@ {
        Some(".wmv"@)
    } else if s == "video/x-ms-wmx"@ {
        Some(".wmx"@)
    } else if s == "application/x-ms-wmz"@ {
        Some(".wmz"@)
    } else if s == "application/x-mswrite"@ {
        Some(".wri"@)
    } else {
        None
    }
}

fn lookup_part_g(s: &str) -> (r: Option<&'static str>)
    ensures
        match r {
            Some(e) => mime_ext_part_g(s@) == Some(e@) && e@.len() <= MAX_SHORT_STR_LEN,
            None => mime_ext_part_g(s@) is None,
        },
{
    if str_eq(s, "application/x-msterminal") {
        proof {
            reveal_strlit(".trm");
        }
        Some(".trm")
    } else if str_eq(s, "text/tab-separated-values") {
        proof {
            reveal_strlit(".tsv");
        }
        Some(".tsv")
    } else if str_eq(s, "text/iuls") {
        proof {
            reveal_strlit(".uls");
        }
        Some(".uls")
    } else if str_eq(s, "application/x-ustar") {
        proof {
            reveal_strlit(".ustar");
        }
        Some(".ustar")
    } else if str_eq(s, "text/vbscript") {
        proof {
            reveal_strlit(".vbs");
        }
        Some(".vbs")
    } else if str_eq(s, "text/x-vcard") {
        proof {
            reveal_strlit(".vcf");
        }
        Some(".vcf")
    } else if str_eq(s, "application/vnd.ms-visio.viewer") {
        proof {
            reveal_strlit(".vdx");
        }
        Some(".vdx")
    } else if str_eq(s, "application/vnd.visio") {
        proof {
            reveal_strlit(".vsd");
        }
        Some(".vsd")
    } else if str_eq(s, "application/x-ms-vsto") {
        proof {
            reveal_strlit(".vsto");
        }
        Some(".vsto")
    } else if str_eq(s, "audio/wav") {
        proof {
            reveal_strlit(".wav");
        }
        Some(".wav")
    } else if str_eq(s, "audio/x-ms-wax") {
        proof {
            reveal_strlit(".wax");
        }
        Some(".wax")
    } else if str_eq(s, "image/vnd.wap.wbmp") {
        proof {
            reveal_strlit(".wbmp");
        }
        Some(".wbmp")
    } else if str_eq(s, "application/vnd.ms-works") {
        proof {
            reveal_strlit(".wcm");
        }
        Some(".wcm")
    } else if str_eq(s, "video/x-ms-wm") {
        proof {
            reveal_strlit(".wm");
        }
        Some(".wm")
    } else if str_eq(s, "audio/x-ms-wma") {
        proof {
            reveal_strlit(".wma");
        }
        Some(".wma")
    } else if str_eq(s, "application/x-ms-wmd") {
        proof {
            reveal_strlit(".wmd");
        }
        Some(".wmd")
    } else if str_eq(s, "application/x-msmetafile") {
        proof {
            reveal_strlit(".wmf");
        }
        Some(".wmf")
    } else if str_eq(s, "text/vnd.wap.wml") {
        proof {
            reveal_strlit(".wml");
        }
        Some(".wml")
    } else if str_eq(s, "application/vnd.wap.wmlc") {
        proof {
            reveal_strlit(".wmlc");
        }
        Some(".wmlc")
    } else if str_eq(s, "text/vnd.wap.wmlscript") {
        proof {
            reveal_strlit(".wmls");
        }
        Some(".wmls")
    } else if str_eq(s, "application/vnd.wap.wmlscriptc") {
        proof {
            reveal_strlit(".wmlsc");
        }
        Some(".wmlsc")
    } else if str_eq(s, "video/x-ms-wmp") {
        proof {
            reveal_strlit(".wmp");
        }
        Some(".wmp")
    } else if str_eq(s, "video/x-ms-wmv") {
        proof {
            reveal_strlit(".wmv");
        }
        Some(".wmv")
    } else if str_eq(s, "video/x-ms-wmx") {
        proof {
            reveal_strlit(".wmx");
        }
        Some(".wmx")
    } else if str_eq(s, "application/x-ms-wmz") {
        proof {
            reveal_strlit(".wmz");
        }
        Some(".wmz")
    } else if str_eq(s, "application/x-mswrite") {
        proof {
            reveal_strlit(".wri");
        }
        Some(".wri")
    } else {
        None
    }
}

/// One part of the table, as a first-match chain.
pub open spec fn mime_ext_part_h(s: Seq<char>) -> Option<Seq<char>> {
    if s == "video/x-ms-wvx"@ {
        Some(".wvx"@)
    } else if s == "application/directx"@ {
        Some(".x"@)
    } else if s == "application/xaml"@ {
        Some(".xaml"@)
    } else if s == "application/x-silverlight-app"@ {
        Some(".xap"@)
    } else if s == "application/x-ms-xbap"@ {
        Some(".xbap"@)
    } else if s == "image/x-xbitmap"@ {
        Some(".xbm"@)
    } else if s == "application/vnd.ms-excel.addin.macroEnabled.12"@ {
        Some(".xlam"@)
    } else if s == "application/vnd.ms-excel"@ {
        Some(".xls"@)
    } else if s == "application/vnd.ms-excel.sheet.binary.macroEnabled.12"@ {
        Some(".xlsb"@)
    } else if s == "application/vnd.ms-excel.sheet.macroEnabled.12"@ {
        Some(".xlsm"@)
    } else if s == "application/vnd.openxmlformats-officedocument.spreadsheetml.sheet"@ {
        Some(".xlsx"@)
    } else if s == "application/vnd.ms-excel.template.macroEnabled.12"@ {
        Some(".xltm"@)
    } else if s == "application/vnd.openxmlformats-officedocument.spreadsheetml.template"@ {
        Some(".xltx"@)
    } else if s == "text/xml"@ {
        Some(".xml"@)
    } else if s == "image/x-xpixmap"@ {
        Some(".xpm"@)
    } else if s == "application/vnd.ms-xpsdocument"@ {
        Some(".xps"@)
    } else if s == "image/x-xwindowdump"@ {
        Some(".xwd"@)
    } else if s == "application/x-compress"@ {
        Some(".z"@)
    } else if s == "application/x-zip-compressed"@ {
        Some(".zip"@)
    } else {
        None
    }
}

fn lookup_part_h(s: &str) -> (r: Option<&'static str>)
    ensures
        match r {
            Some(e) => mime_ext_part_h(s@) == Some(e@) && e@.len() <= MAX_SHORT_STR_LEN,
            None => mime_ext_part_h(s@) is None,
        },
{
    if str_eq(s, "video/x-ms-wvx") {
        proof {
            reveal_strlit(".wvx");
        }
        Some(".wvx")
    } else if str_eq(s, "application/directx") {
        proof {
            reveal_strlit(".x");
        }
        Some(".x")
    } else if str_eq(s, "application/xaml") {
        proof {
            reveal_strlit(".xaml");
        }
        Some(".xaml")
    } else if str_eq(s, "application/x-silverlight-app") {
        proof {
            reveal_strlit(".xap");
        }
        Some(".xap")
    } else if str_eq(s, "application/x-ms-xbap") {
        proof {
            reveal_strlit(".xbap");
        }
        Some(".xbap")
    } else if str_eq(s, "image/x-xbitmap") {
        proof {
            reveal_strlit(".xbm");
        }
        Some(".xbm")
    } else if str_eq(s, "application/vnd.ms-excel.addin.macroEnabled.12") {
        proof {
            reveal_strlit(".xlam");
        }
        Some(".xlam")
    } else if str_eq(s, "application/vnd.ms-excel") {
        proof {
            reveal_strlit(".xls");
        }
        Some(".xls")
    } else if str_eq(s, "application/vnd.ms-excel.sheet.binary.macroEnabled.12") {
        proof {
            reveal_strlit(".xlsb");
        }
        Some(".xlsb")
    } else if str_eq(s, "application/vnd.ms-excel.sheet.macroEnabled.12") {
        proof {
            reveal_strlit(".xlsm");
        }
        Some(".xlsm")
    } else if str_eq(s, "application/vnd.openxmlformats-officedocument.spreadsheetml.sheet") {
        proof {
            reveal_strlit(".xlsx");
        }
        Some(".xlsx")
    } else if str_eq(s, "application/vnd.ms-excel.template.macroEnabled.12") {
        proof {
            reveal_strlit(".xltm");
        }
        Some(".xltm")
    } else if str_eq(s, "application/vnd.openxmlformats-officedocument.spreadsheetml.template") {
        proof {
            reveal_strlit(".xltx");
        }
        Some(".xltx")
    } else if str_eq(s, "text/xml") {
        proof {
            reveal_strlit(".xml");
        }
        Some(".xml")
    } else if str_eq(s, "image/x-xpixmap") {
        proof {
            reveal_strlit(".xpm");
        }
        Some(".xpm")
    } else if str_eq(s, "application/vnd.ms-xpsdocument") {
        proof {
            reveal_strlit(".xps");
        }
        Some(".xps")
    } else if str_eq(s, "image/x-xwindowdump") {
        proof {
            reveal_strlit(".xwd");
        }
        Some(".xwd")
    } else if str_eq(s, "application/x-compress") {
        proof {
            reveal_strlit(".z");
        }
        Some(".z")
    } else if str_eq(s, "application/x-zip-compressed") {
        proof {
            reveal_strlit(".zip");
        }
        Some(".zip")
    } else {
        None
    }
}

/// The extension recorded for the normalized MIME key `s`, if any.
pub open spec fn mime_ext_spec(s: Seq<char>) -> Option<Seq<char>> {
    if mime_ext_part_a(s) is Some {
        mime_ext_part_a(s)
    } else if mime_ext_part_b(s) is Some {
        mime_ext_part_b(s)
    } else if mime_ext_part_c(s) is Some {
        mime_ext_part_c(s)
    } else if mime_ext_part_d(s) is Some {
        mime_ext_part_d(s)
    } else if mime_ext_part_e(s) is Some {
        mime_ext_part_e(s)
    } else if mime_ext_part_f(s) is Some {
        mime_ext_part_f(s)
    } else if mime_ext_part_g(s) is Some {
        mime_ext_part_g(s)
    } else if mime_ext_part_h(s) is Some {
        mime_ext_part_h(s)
    } else {
        None
    }
}

/// Looks up the extension for the content type `src`.
///
/// The key is normalized first: only the part of `src` before its first `+` or
/// `;` is matched, exactly and case-sensitively. On a match the recorded
/// extension is returned verbatim, which may be empty. On a miss the lookup
/// fails with [`ExtError::UnknownMimeType`] carrying the unnormalized input.
pub fn mime_to_ext(src: &str) -> (r: Result<ShortStr, ExtError>)
    ensures
        match r {
            Ok(ext) => mime_ext_spec(normalize_mime(src@)) == Some(ext@) && ext.wf(),
            Err(e) => ({
                &&& e matches ExtError::UnknownMimeType(m) && m@ == src@
                &&& mime_ext_spec(normalize_mime(src@)) is None
            }),
        },
{
    let key = normalize(src);
    let hit: Option<&'static str> = 
    if let Some(e) = lookup_part_a(key) {
        Some(e)
    } else if let Some(e) = lookup_part_b(key) {
        Some(e)
    } else if let Some(e) = lookup_part_c(key) {
        Some(e)
    } else if let Some(e) = lookup_part_d(key) {
        Some(e)
    } else if let Some(e) = lookup_part_e(key) {
        Some(e)
    } else if let Some(e) = lookup_part_f(key) {
        Some(e)
    } else if let Some(e) = lookup_part_g(key) {
        Some(e)
    } else if let Some(e) = lookup_part_h(key) {
        Some(e)
    } else {
        None
    };
    match hit {
        Some(e) => {
            match ShortStr::new(e) {
                Some(v) => Ok(v),
                None => vstd::pervasive::unreached(),
            }
        },
        None => Err(ExtError::UnknownMimeType(src.to_owned())),
    }
}

} // verus!
